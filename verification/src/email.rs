use vstd::prelude::*;

use crate::model::{Identificacion, RecepcionMh};
use crate::text::{replace_all, replace_str};

verus! {

/// The body of the notification e-mail: the template with the control number,
/// the generation code and the receipt stamp put in for their placeholders.
pub open spec fn html_body_view(template: Seq<char>, id: Identificacion, rec: RecepcionMh) -> Seq<
    char,
> {
    replace_all(
        replace_all(
            replace_all(template, "{{dte_number}}"@, id.numeroControl@),
            "{{code_generation}}"@,
            id.codigoGeneracion@,
        ),
        "{{sello_hacienda}}"@,
        rec.selloRecibido@,
    )
}

/// Fills in the notification e-mail template for a document.
pub fn build_html_body(
    template: &str,
    identificacion: &Identificacion,
    recepcion: &RecepcionMh,
) -> (html: String)
    ensures
        html@ == html_body_view(template@, *identificacion, *recepcion),
{
    proof {
        reveal_strlit("{{dte_number}}");
        reveal_strlit("{{code_generation}}");
        reveal_strlit("{{sello_hacienda}}");
    }
    let step1 = replace_str(template, "{{dte_number}}", identificacion.numeroControl.as_str());
    let step2 = replace_str(
        step1.as_str(),
        "{{code_generation}}",
        identificacion.codigoGeneracion.as_str(),
    );
    replace_str(step2.as_str(), "{{sello_hacienda}}", recepcion.selloRecibido.as_str())
}

/// The subject of the notification e-mail, which names the issuer.
pub fn email_subject(emisor_nombre: &str) -> (subject: String)
    ensures
        subject@ == "Factura electrónica - "@ + emisor_nombre@,
{
    let mut subject = String::from_str("Factura electrónica - ");
    subject.append(emisor_nombre);
    subject
}

} // verus!

verus! {

/// A template without any of the three placeholders is sent as it is.
pub proof fn html_body_without_placeholders(
    template: Seq<char>,
    id: Identificacion,
    rec: RecepcionMh,
)
    requires
        !crate::text::occurs_in(template, "{{dte_number}}"@),
        !crate::text::occurs_in(template, "{{code_generation}}"@),
        !crate::text::occurs_in(template, "{{sello_hacienda}}"@),
    ensures
        html_body_view(template, id, rec) == template,
{
    reveal_strlit("{{dte_number}}");
    reveal_strlit("{{code_generation}}");
    reveal_strlit("{{sello_hacienda}}");
    crate::text::replace_all_without_occurrence(template, "{{dte_number}}"@, id.numeroControl@);
    crate::text::replace_all_without_occurrence(
        template,
        "{{code_generation}}"@,
        id.codigoGeneracion@,
    );
    crate::text::replace_all_without_occurrence(
        template,
        "{{sello_hacienda}}"@,
        rec.selloRecibido@,
    );
}

} // verus!

verus! {

/// `pat` occurs nowhere in `s` because no place of `s` but the first reads
/// `pat[1]` one character on, and at the first place the third character
/// differs.
proof fn lemma_no_occurrence(s: Seq<char>, pat: Seq<char>)
    requires
        pat.len() >= 3,
        s.len() >= 3,
        s[2] != pat[2],
        forall|i: int| 1 <= i && i + 1 < s.len() ==> #[trigger] s[i + 1] != pat[1],
    ensures
        !crate::text::occurs_in(s, pat),
{
    assert forall|i: int| 0 <= i && i + pat.len() <= s.len() implies #[trigger] s.subrange(
        i,
        i + pat.len(),
    ) != pat by {
        let sub = s.subrange(i, i + pat.len());
        if i == 0 {
            assert(sub[2] == s[2]);
        } else {
            assert(sub[1] == s[i + 1]);
        }
    }
}

/// Each placeholder is filled with its own value: a template that is only
/// the control-number placeholder becomes the control number, one that is
/// only the generation-code placeholder the generation code, and one that is
/// only the stamp placeholder the receipt stamp (where a value put in does
/// not itself hold a placeholder filled after it).
pub proof fn html_body_fills_placeholders(id: Identificacion, rec: RecepcionMh)
    requires
        !crate::text::occurs_in(id.numeroControl@, "{{code_generation}}"@),
        !crate::text::occurs_in(id.numeroControl@, "{{sello_hacienda}}"@),
        !crate::text::occurs_in(id.codigoGeneracion@, "{{sello_hacienda}}"@),
    ensures
        html_body_view("{{dte_number}}"@, id, rec) == id.numeroControl@,
        html_body_view("{{code_generation}}"@, id, rec) == id.codigoGeneracion@,
        html_body_view("{{sello_hacienda}}"@, id, rec) == rec.selloRecibido@,
{
    reveal_strlit("{{dte_number}}");
    reveal_strlit("{{code_generation}}");
    reveal_strlit("{{sello_hacienda}}");
    let p1 = "{{dte_number}}"@;
    let p2 = "{{code_generation}}"@;
    let p3 = "{{sello_hacienda}}"@;
    crate::text::replace_all_whole(p1, id.numeroControl@);
    crate::text::replace_all_without_occurrence(id.numeroControl@, p2, id.codigoGeneracion@);
    crate::text::replace_all_without_occurrence(id.numeroControl@, p3, rec.selloRecibido@);
    assert forall|i: int| 1 <= i && i + 1 < p2.len() implies #[trigger] p2[i + 1] != p1[1] by {
    }
    lemma_no_occurrence(p2, p1);
    crate::text::replace_all_without_occurrence(p2, p1, id.numeroControl@);
    crate::text::replace_all_whole(p2, id.codigoGeneracion@);
    crate::text::replace_all_without_occurrence(id.codigoGeneracion@, p3, rec.selloRecibido@);
    assert forall|i: int| 1 <= i && i + 1 < p3.len() implies #[trigger] p3[i + 1] != p1[1] by {
    }
    lemma_no_occurrence(p3, p1);
    crate::text::replace_all_without_occurrence(p3, p1, id.numeroControl@);
    assert(!crate::text::occurs_in(p3, p2));
    crate::text::replace_all_without_occurrence(p3, p2, id.codigoGeneracion@);
    crate::text::replace_all_whole(p3, rec.selloRecibido@);
}

} // verus!
