use vstd::prelude::*;

use crate::model::{Emisor, Identificacion, RecepcionMh, Receptor};
use crate::text::{decimal, push_decimal};

verus! {

/// A label and the value printed after it.
pub struct LabeledText {
    pub label: String,
    pub value: String,
}

impl View for LabeledText {
    type V = (Seq<char>, Seq<char>);

    open spec fn view(&self) -> (Seq<char>, Seq<char>) {
        (self.label@, self.value@)
    }
}

/// The view of a list of labelled texts.
pub open spec fn labeled_view(rows: Seq<LabeledText>) -> Seq<(Seq<char>, Seq<char>)> {
    rows.map_values(|r: LabeledText| r@)
}

/// A labelled text built from two strings.
fn labeled(label: &str, value: &str) -> (r: LabeledText)
    ensures
        r@ == (label@, value@),
{
    LabeledText { label: String::from_str(label), value: String::from_str(value) }
}

/// A labelled text whose value is printed after a space.
fn labeled_spaced(label: &str, value: &str) -> (r: LabeledText)
    ensures
        r@ == (label@, " "@ + value@),
{
    let mut v = String::from_str(" ");
    v.append(value);
    LabeledText { label: String::from_str(label), value: v }
}

/// The issuer's details printed under its name, each value after a space.
pub open spec fn emisor_info_view(e: Emisor) -> Seq<(Seq<char>, Seq<char>)> {
    seq![
        ("NIT:"@, " "@ + e.nit@),
        ("NRC:"@, " "@ + e.nrc@),
        ("COD ACTIVIDAD:"@, " "@ + e.codActividad@),
        ("ACTIVIDAD:"@, " "@ + e.descActividad@),
        ("DIRECCIÓN:"@, " "@ + e.direccion.complemento@),
        ("TELÉFONO:"@, " "@ + e.telefono@),
        ("CORREO:"@, " "@ + e.correo@),
    ]
}

/// The rows of the issuer section, top to bottom.
pub fn emisor_info_rows(emisor: &Emisor) -> (rows: Vec<LabeledText>)
    ensures
        labeled_view(rows@) == emisor_info_view(*emisor),
{
    let mut rows: Vec<LabeledText> = Vec::new();
    rows.push(labeled_spaced("NIT:", emisor.nit.as_str()));
    rows.push(labeled_spaced("NRC:", emisor.nrc.as_str()));
    rows.push(labeled_spaced("COD ACTIVIDAD:", emisor.codActividad.as_str()));
    rows.push(labeled_spaced("ACTIVIDAD:", emisor.descActividad.as_str()));
    rows.push(labeled_spaced("DIRECCIÓN:", emisor.direccion.complemento.as_str()));
    rows.push(labeled_spaced("TELÉFONO:", emisor.telefono.as_str()));
    rows.push(labeled_spaced("CORREO:", emisor.correo.as_str()));
    assert(labeled_view(rows@) =~= emisor_info_view(*emisor));
    rows
}

} // verus!

verus! {

/// A labelled text placed in a column and a row of a block.
pub struct PlacedField {
    pub label: String,
    pub value: String,
    pub column: usize,
    pub row: usize,
}

impl View for PlacedField {
    type V = (Seq<char>, Seq<char>, nat, nat);

    open spec fn view(&self) -> (Seq<char>, Seq<char>, nat, nat) {
        (self.label@, self.value@, self.column as nat, self.row as nat)
    }
}

/// The view of a list of placed fields.
pub open spec fn placed_view(fields: Seq<PlacedField>) -> Seq<(Seq<char>, Seq<char>, nat, nat)> {
    fields.map_values(|f: PlacedField| f@)
}

/// The document's key data in the header: six fields down the first column,
/// three down the second.
pub open spec fn document_info_view(id: Identificacion, rec: RecepcionMh) -> Seq<
    (Seq<char>, Seq<char>, nat, nat),
> {
    seq![
        ("CÓDIGO DE GENERACIÓN:"@, id.codigoGeneracion@, 0nat, 0nat),
        ("SELLO RECEPCIÓN:"@, rec.selloRecibido@, 0nat, 1nat),
        ("NÚMERO DE CONTROL:"@, id.numeroControl@, 0nat, 2nat),
        ("MODELO FACTURACIÓN:"@, decimal(id.tipoModelo as nat), 0nat, 3nat),
        ("VERSIÓN DEL JSON:"@, decimal(id.version as nat), 0nat, 4nat),
        ("TIPO DE TRANSMISIÓN:"@, rec.estado@, 0nat, 5nat),
        ("FECHA DE EMISIÓN:"@, id.fecEmi@, 1nat, 0nat),
        ("MONEDA:"@, id.tipoMoneda@, 1nat, 1nat),
        ("HORA DE EMISIÓN:"@, id.horEmi@, 1nat, 2nat),
    ]
}

/// The field at position `i` of the header's document data: the first six
/// go down the first column, the rest down the second.
fn placed(i: usize, label: &str, value: String) -> (f: PlacedField)
    requires
        i < 9,
    ensures
        f@ == (label@, value@, (if i < 6 { 0nat } else { 1nat }), (if i < 6 { i as nat } else { (i
            - 6) as nat })),
{
    let (column, row) = if i < 6 {
        (0, i)
    } else {
        (1, i - 6)
    };
    PlacedField { label: String::from_str(label), value, column, row }
}

/// The document's key data printed in the header, with where each goes.
pub fn document_info_fields(identificacion: &Identificacion, recepcion: &RecepcionMh) -> (fields:
    Vec<PlacedField>)
    ensures
        placed_view(fields@) == document_info_view(*identificacion, *recepcion),
        fields.len() == 9,
        fields[3].label@ == "MODELO FACTURACIÓN:"@,
        fields[3].value@ == decimal(identificacion.tipoModelo as nat),
        fields[4].label@ == "VERSIÓN DEL JSON:"@,
        fields[4].value@ == decimal(identificacion.version as nat),
{
    let mut modelo = String::new();
    push_decimal(&mut modelo, identificacion.tipoModelo as u64);
    let mut version = String::new();
    push_decimal(&mut version, identificacion.version as u64);
    let mut fields: Vec<PlacedField> = Vec::new();
    fields.push(placed(0, "CÓDIGO DE GENERACIÓN:", identificacion.codigoGeneracion.clone()));
    fields.push(placed(1, "SELLO RECEPCIÓN:", recepcion.selloRecibido.clone()));
    fields.push(placed(2, "NÚMERO DE CONTROL:", identificacion.numeroControl.clone()));
    fields.push(placed(3, "MODELO FACTURACIÓN:", modelo));
    fields.push(placed(4, "VERSIÓN DEL JSON:", version));
    fields.push(placed(5, "TIPO DE TRANSMISIÓN:", recepcion.estado.clone()));
    fields.push(placed(6, "FECHA DE EMISIÓN:", identificacion.fecEmi.clone()));
    fields.push(placed(7, "MONEDA:", identificacion.tipoMoneda.clone()));
    fields.push(placed(8, "HORA DE EMISIÓN:", identificacion.horEmi.clone()));
    assert(placed_view(fields@) =~= document_info_view(*identificacion, *recepcion));
    proof {
        assert(fields[3]@ == placed_view(fields@)[3]);
        assert(fields[4]@ == placed_view(fields@)[4]);
    }
    fields
}

/// The labels of the extra-information block, all with empty values.
pub open spec fn extra_info_view() -> Seq<(Seq<char>, Seq<char>)> {
    seq![
        ("CÓDIGO CLIENTE:"@, ""@),
        ("NÚMERO DE CONTROL:"@, ""@),
        ("VENDEDOR:"@, ""@),
        ("CÓDIGO ALMACÉN:"@, ""@),
        ("Nº DOCUMENTO:"@, ""@),
        ("ORDEN DE COMPRA:"@, ""@),
    ]
}

/// The rows of the extra-information block beside the QR code.
pub fn extra_info_rows() -> (rows: Vec<LabeledText>)
    ensures
        labeled_view(rows@) == extra_info_view(),
{
    let mut rows: Vec<LabeledText> = Vec::new();
    rows.push(labeled("CÓDIGO CLIENTE:", ""));
    rows.push(labeled("NÚMERO DE CONTROL:", ""));
    rows.push(labeled("VENDEDOR:", ""));
    rows.push(labeled("CÓDIGO ALMACÉN:", ""));
    rows.push(labeled("Nº DOCUMENTO:", ""));
    rows.push(labeled("ORDEN DE COMPRA:", ""));
    assert(labeled_view(rows@) =~= extra_info_view());
    rows
}

/// The public lookup address of the document, which the QR code holds.
pub open spec fn consulta_url_view(rec: RecepcionMh, id: Identificacion) -> Seq<char> {
    "https://admin.factura.gob.sv/consultaPublica?ambiente="@ + rec.ambiente@ + "&codGen="@
        + rec.codigoGeneracion@ + "&fechaEmi="@ + id.fecEmi@
}

/// Writes the public lookup address of the document.
pub fn qr_consulta_url(recepcion: &RecepcionMh, identificacion: &Identificacion) -> (url: String)
    ensures
        url@ == consulta_url_view(*recepcion, *identificacion),
{
    let mut url = String::from_str("https://admin.factura.gob.sv/consultaPublica?ambiente=");
    url.append(recepcion.ambiente.as_str());
    url.append("&codGen=");
    url.append(recepcion.codigoGeneracion.as_str());
    url.append("&fechaEmi=");
    url.append(identificacion.fecEmi.as_str());
    url
}

/// The customer's details, in two columns: row by row, the left entry and the right one.
pub open spec fn client_info_view(r: Receptor) -> Seq<((Seq<char>, Seq<char>), (Seq<char>, Seq<char>))> {
    let nrc = match r.nrc {
        Some(n) => n@,
        None => ""@,
    };
    seq![
        (("NOMBRE:"@, r.nombre@), ("TIPO Y Nº DOCUMENTO:"@, r.numDocumento@)),
        (("ACTIVIDAD:"@, r.descActividad@), ("NRC:"@, nrc)),
        (("DIRECCIÓN:"@, r.direccion.complemento@), ("TELÉFONO:"@, r.telefono@)),
        (("REFERENCIAS:"@, ""@), ("CORREO:"@, r.correo@)),
    ]
}

/// Two labelled texts printed side by side.
pub struct LabeledPair {
    pub left: LabeledText,
    pub right: LabeledText,
}

impl View for LabeledPair {
    type V = ((Seq<char>, Seq<char>), (Seq<char>, Seq<char>));

    open spec fn view(&self) -> ((Seq<char>, Seq<char>), (Seq<char>, Seq<char>)) {
        (self.left@, self.right@)
    }
}

/// The view of a list of side-by-side pairs.
pub open spec fn pairs_view(rows: Seq<LabeledPair>) -> Seq<
    ((Seq<char>, Seq<char>), (Seq<char>, Seq<char>)),
> {
    rows.map_values(|r: LabeledPair| r@)
}

/// The rows of the customer section, top to bottom.
pub fn client_info_rows(receptor: &Receptor) -> (rows: Vec<LabeledPair>)
    ensures
        pairs_view(rows@) == client_info_view(*receptor),
        rows.len() == 4,
        rows[1].left.label@ == "ACTIVIDAD:"@,
        rows[1].left.value@ == receptor.descActividad@,
{
    let nrc: &str = match &receptor.nrc {
        Some(n) => n.as_str(),
        None => "",
    };
    let mut rows: Vec<LabeledPair> = Vec::new();
    rows.push(
        LabeledPair {
            left: labeled("NOMBRE:", receptor.nombre.as_str()),
            right: labeled("TIPO Y Nº DOCUMENTO:", receptor.numDocumento.as_str()),
        },
    );
    rows.push(
        LabeledPair {
            left: labeled("ACTIVIDAD:", receptor.descActividad.as_str()),
            right: labeled("NRC:", nrc),
        },
    );
    rows.push(
        LabeledPair {
            left: labeled("DIRECCIÓN:", receptor.direccion.complemento.as_str()),
            right: labeled("TELÉFONO:", receptor.telefono.as_str()),
        },
    );
    rows.push(
        LabeledPair {
            left: labeled("REFERENCIAS:", ""),
            right: labeled("CORREO:", receptor.correo.as_str()),
        },
    );
    assert(pairs_view(rows@) =~= client_info_view(*receptor));
    proof {
        assert(rows[1]@ == pairs_view(rows@)[1]);
    }
    rows
}

} // verus!

verus! {

/// The column headings of the product table.
pub open spec fn product_headers_view() -> Seq<Seq<char>> {
    seq![
        "Num"@,
        " Cant"@,
        "Unidad Medida"@,
        "Código"@,
        "Descripción"@,
        "Precio Unit"@,
        "Descuento"@,
        "No Sujetas"@,
        "Exentas"@,
        "Gravadas"@,
    ]
}

/// The view of a list of strings.
pub open spec fn strings_view(v: Seq<String>) -> Seq<Seq<char>> {
    v.map_values(|s: String| s@)
}

/// The column headings of the product table, left to right.
pub fn product_table_headers() -> (headers: Vec<String>)
    ensures
        strings_view(headers@) == product_headers_view(),
{
    let mut headers: Vec<String> = Vec::new();
    headers.push(String::from_str("Num"));
    headers.push(String::from_str(" Cant"));
    headers.push(String::from_str("Unidad Medida"));
    headers.push(String::from_str("Código"));
    headers.push(String::from_str("Descripción"));
    headers.push(String::from_str("Precio Unit"));
    headers.push(String::from_str("Descuento"));
    headers.push(String::from_str("No Sujetas"));
    headers.push(String::from_str("Exentas"));
    headers.push(String::from_str("Gravadas"));
    assert(strings_view(headers@) =~= product_headers_view());
    headers
}

/// Whether a column of the product table holds amounts, which are aligned
/// to the right; the first five are aligned to the left.
pub fn column_is_right_aligned(column: usize) -> (r: bool)
    ensures
        r == (column >= 5),
{
    column >= 5
}

/// The amounts of a product line, each already written with two decimals.
pub struct LineAmounts {
    pub cantidad: String,
    pub precio_uni: String,
    pub venta_no_suj: String,
    pub venta_exenta: String,
    pub venta_gravada: String,
    pub total_linea: String,
}

/// The cells of the table row at position `index`: the position, the
/// quantity, the unit of measure, the code, the description, then the unit
/// price, the non-taxable, exempt and taxed sales, and the line total.
pub open spec fn product_row_view(
    index: nat,
    uni_medida: nat,
    codigo: Seq<char>,
    descripcion: Seq<char>,
    a: LineAmounts,
) -> Seq<Seq<char>> {
    seq![
        decimal(index),
        a.cantidad@,
        decimal(uni_medida),
        codigo,
        descripcion,
        a.precio_uni@,
        a.venta_no_suj@,
        a.venta_exenta@,
        a.venta_gravada@,
        a.total_linea@,
    ]
}

/// The cells of one row of the product table, left to right.
pub fn product_row_cells(
    index: usize,
    uni_medida: u32,
    codigo: &str,
    descripcion: &str,
    amounts: LineAmounts,
) -> (cells: Vec<String>)
    ensures
        strings_view(cells@) == product_row_view(
            index as nat,
            uni_medida as nat,
            codigo@,
            descripcion@,
            amounts,
        ),
        cells.len() == 10,
        cells[0]@ == decimal(index as nat),
        cells[1]@ == amounts.cantidad@,
        cells[2]@ == decimal(uni_medida as nat),
        cells[3]@ == codigo@,
        cells[4]@ == descripcion@,
        cells[5]@ == amounts.precio_uni@,
        cells[6]@ == amounts.venta_no_suj@,
        cells[7]@ == amounts.venta_exenta@,
        cells[8]@ == amounts.venta_gravada@,
        cells[9]@ == amounts.total_linea@,
{
    let ghost a = amounts;
    let mut position = String::new();
    push_decimal(&mut position, index as u64);
    let mut unit = String::new();
    push_decimal(&mut unit, uni_medida as u64);
    let LineAmounts {
        cantidad,
        precio_uni,
        venta_no_suj,
        venta_exenta,
        venta_gravada,
        total_linea,
    } = amounts;
    let mut cells: Vec<String> = Vec::new();
    cells.push(position);
    cells.push(cantidad);
    cells.push(unit);
    cells.push(String::from_str(codigo));
    cells.push(String::from_str(descripcion));
    cells.push(precio_uni);
    cells.push(venta_no_suj);
    cells.push(venta_exenta);
    cells.push(venta_gravada);
    cells.push(total_linea);
    assert(strings_view(cells@) =~= product_row_view(
        index as nat,
        uni_medida as nat,
        codigo@,
        descripcion@,
        a,
    ));
    proof {
        assert forall|i: int| 0 <= i < 10 implies cells[i]@ == #[trigger] strings_view(cells@)[i] by {
        }
    }
    cells
}

/// A cell of the table that is drawn: its column, its text and its alignment.
pub struct TableCell {
    pub column: usize,
    pub text: String,
    pub right_aligned: bool,
}

impl View for TableCell {
    type V = (nat, Seq<char>, bool);

    open spec fn view(&self) -> (nat, Seq<char>, bool) {
        (self.column as nat, self.text@, self.right_aligned)
    }
}

/// The view of a list of cells.
pub open spec fn cells_view(cells: Seq<TableCell>) -> Seq<(nat, Seq<char>, bool)> {
    cells.map_values(|c: TableCell| c@)
}

/// The cells drawn for the first `upto` texts of a row: each non-empty text
/// with its column and whether it is aligned to the right (from column 5 on).
pub open spec fn drawn_cells(texts: Seq<Seq<char>>, upto: nat) -> Seq<(nat, Seq<char>, bool)>
    decreases upto,
{
    if upto == 0 {
        Seq::empty()
    } else {
        let before = drawn_cells(texts, (upto - 1) as nat);
        let column = (upto - 1) as nat;
        if texts[column as int].len() == 0 {
            before
        } else {
            before.push((column, texts[column as int], column >= 5))
        }
    }
}

/// The cells of a row that are drawn: empty texts are skipped, and the
/// others keep their column, with amounts aligned to the right.
pub fn table_cells(texts: &Vec<String>) -> (cells: Vec<TableCell>)
    ensures
        cells_view(cells@) == drawn_cells(strings_view(texts@), texts.len() as nat),
{
    let ghost tv = strings_view(texts@);
    let mut cells: Vec<TableCell> = Vec::new();
    let mut i: usize = 0;
    assert(cells_view(cells@) =~= drawn_cells(tv, 0));
    while i < texts.len()
        invariant
            tv == strings_view(texts@),
            i <= texts.len(),
            cells_view(cells@) == drawn_cells(tv, i as nat),
        decreases texts.len() - i,
    {
        assert(tv[i as int] == texts[i as int]@);
        let ghost old_cells = cells@;
        if texts[i].as_str().is_empty() {
        } else {
            cells.push(
                TableCell {
                    column: i,
                    text: texts[i].clone(),
                    right_aligned: column_is_right_aligned(i),
                },
            );
            assert(cells_view(cells@) =~= cells_view(old_cells).push(
                (i as nat, tv[i as int], i >= 5),
            ));
        }
        i += 1;
    }
    cells
}

/// The amounts summed up beside the footer, each after its label.
pub open spec fn summary_view(
    sin_impuesto: Seq<char>,
    sub_total: Seq<char>,
    iva_retenido: Seq<char>,
    monto_total: Seq<char>,
) -> Seq<(Seq<char>, Seq<char>)> {
    seq![
        ("Suma de operaciones sin impuesto"@, sin_impuesto),
        ("Sub total"@, sub_total),
        ("IVA retenido"@, iva_retenido),
        ("Monto total de la operación"@, monto_total),
    ]
}

/// The summary rows beside the footer: operations before tax, subtotal,
/// withheld VAT and the total of the operation.
pub fn summary_rows(
    sin_impuesto: &str,
    sub_total: &str,
    iva_retenido: &str,
    monto_total: &str,
) -> (rows: Vec<LabeledText>)
    ensures
        labeled_view(rows@) == summary_view(sin_impuesto@, sub_total@, iva_retenido@, monto_total@),
{
    let mut rows: Vec<LabeledText> = Vec::new();
    rows.push(labeled("Suma de operaciones sin impuesto", sin_impuesto));
    rows.push(labeled("Sub total", sub_total));
    rows.push(labeled("IVA retenido", iva_retenido));
    rows.push(labeled("Monto total de la operación", monto_total));
    assert(labeled_view(rows@) =~= summary_view(
        sin_impuesto@,
        sub_total@,
        iva_retenido@,
        monto_total@,
    ));
    rows
}

} // verus!

verus! {

/// The issuer section lists, in this order, its NIT, NRC, activity code,
/// activity description, address, telephone and e-mail, each value printed
/// after a space.
pub proof fn emisor_info_reads(e: Emisor)
    ensures
        ({
            let v = emisor_info_view(e);
            &&& v.len() == 7
            &&& v[0] == ("NIT:"@, " "@ + e.nit@)
            &&& v[1] == ("NRC:"@, " "@ + e.nrc@)
            &&& v[2] == ("COD ACTIVIDAD:"@, " "@ + e.codActividad@)
            &&& v[3] == ("ACTIVIDAD:"@, " "@ + e.descActividad@)
            &&& v[4] == ("DIRECCIÓN:"@, " "@ + e.direccion.complemento@)
            &&& v[5] == ("TELÉFONO:"@, " "@ + e.telefono@)
            &&& v[6] == ("CORREO:"@, " "@ + e.correo@)
        }),
{
}

/// The header's document data: down the first column the generation code,
/// the reception stamp, the control number, the billing model (the decimal
/// text of `tipoModelo`), the JSON version (the decimal text of `version`)
/// and the transmission state; down the second the issue date, the currency
/// and the issue time.
pub proof fn document_info_reads(id: Identificacion, rec: RecepcionMh)
    ensures
        ({
            let v = document_info_view(id, rec);
            &&& v.len() == 9
            &&& v[0] == ("CÓDIGO DE GENERACIÓN:"@, id.codigoGeneracion@, 0nat, 0nat)
            &&& v[1] == ("SELLO RECEPCIÓN:"@, rec.selloRecibido@, 0nat, 1nat)
            &&& v[2] == ("NÚMERO DE CONTROL:"@, id.numeroControl@, 0nat, 2nat)
            &&& v[3] == ("MODELO FACTURACIÓN:"@, decimal(id.tipoModelo as nat), 0nat, 3nat)
            &&& v[4] == ("VERSIÓN DEL JSON:"@, decimal(id.version as nat), 0nat, 4nat)
            &&& v[5] == ("TIPO DE TRANSMISIÓN:"@, rec.estado@, 0nat, 5nat)
            &&& v[6] == ("FECHA DE EMISIÓN:"@, id.fecEmi@, 1nat, 0nat)
            &&& v[7] == ("MONEDA:"@, id.tipoMoneda@, 1nat, 1nat)
            &&& v[8] == ("HORA DE EMISIÓN:"@, id.horEmi@, 1nat, 2nat)
        }),
{
}

/// The extra-information block holds six labels, customer code, control
/// number, seller, warehouse code, document number and purchase order, every
/// value left empty.
pub proof fn extra_info_reads()
    ensures
        extra_info_view().len() == 6,
        forall|i: int| 0 <= i < 6 ==> (#[trigger] extra_info_view()[i]).1 == ""@,
        extra_info_view()[0].0 == "CÓDIGO CLIENTE:"@,
        extra_info_view()[1].0 == "NÚMERO DE CONTROL:"@,
        extra_info_view()[2].0 == "VENDEDOR:"@,
        extra_info_view()[3].0 == "CÓDIGO ALMACÉN:"@,
        extra_info_view()[4].0 == "Nº DOCUMENTO:"@,
        extra_info_view()[5].0 == "ORDEN DE COMPRA:"@,
{
}

/// The lookup address is the public lookup page with three parameters: the
/// environment and the generation code of the reception, and the issue date
/// of the document.
pub proof fn consulta_url_reads(rec: RecepcionMh, id: Identificacion)
    ensures
        consulta_url_view(rec, id) == "https://admin.factura.gob.sv/consultaPublica?"@ + "ambiente="@
            + rec.ambiente@ + "&"@ + "codGen="@ + rec.codigoGeneracion@ + "&"@ + "fechaEmi="@
            + id.fecEmi@,
{
    reveal_strlit("https://admin.factura.gob.sv/consultaPublica?ambiente=");
    reveal_strlit("https://admin.factura.gob.sv/consultaPublica?");
    reveal_strlit("ambiente=");
    reveal_strlit("&codGen=");
    reveal_strlit("&fechaEmi=");
    reveal_strlit("&");
    reveal_strlit("codGen=");
    reveal_strlit("fechaEmi=");
    assert(consulta_url_view(rec, id) =~= "https://admin.factura.gob.sv/consultaPublica?"@
        + "ambiente="@ + rec.ambiente@ + "&"@ + "codGen="@ + rec.codigoGeneracion@ + "&"@
        + "fechaEmi="@ + id.fecEmi@);
}

/// The product table has ten columns: number, quantity, unit of measure,
/// code, description, unit price, discount, non-taxable, exempt and taxed.
pub proof fn product_headers_read()
    ensures
        product_headers_view().len() == 10,
        product_headers_view()[0] == "Num"@,
        product_headers_view()[1] == " Cant"@,
        product_headers_view()[2] == "Unidad Medida"@,
        product_headers_view()[3] == "Código"@,
        product_headers_view()[4] == "Descripción"@,
        product_headers_view()[5] == "Precio Unit"@,
        product_headers_view()[6] == "Descuento"@,
        product_headers_view()[7] == "No Sujetas"@,
        product_headers_view()[8] == "Exentas"@,
        product_headers_view()[9] == "Gravadas"@,
{
}

/// The first `upto` texts of a row are drawn as their non-empty ones, in
/// column order.
proof fn lemma_drawn_cells(texts: Seq<Seq<char>>, upto: nat)
    requires
        upto <= texts.len(),
    ensures
        ({
            let d = drawn_cells(texts, upto);
            &&& forall|k: int|
                0 <= k < d.len() ==> (#[trigger] d[k]).0 < upto && d[k].1 == texts[d[k].0 as int]
                    && d[k].1.len() > 0 && d[k].2 == (d[k].0 >= 5)
            &&& forall|k: int, j: int| 0 <= k < j < d.len() ==> #[trigger] d[k].0 < #[trigger] d[j].0
            &&& forall|c: int|
                0 <= c < upto && (#[trigger] texts[c]).len() > 0 ==> exists|k: int|
                    0 <= k < d.len() && #[trigger] d[k].0 == c
        }),
    decreases upto,
{
    if upto > 0 {
        let before = drawn_cells(texts, (upto - 1) as nat);
        lemma_drawn_cells(texts, (upto - 1) as nat);
        let d = drawn_cells(texts, upto);
        let column = (upto - 1) as nat;
        if texts[column as int].len() > 0 {
            assert(d == before.push((column, texts[column as int], column >= 5)));
            assert forall|c: int|
                0 <= c < upto && (#[trigger] texts[c]).len() > 0 implies exists|k: int|
                0 <= k < d.len() && #[trigger] d[k].0 == c by {
                if c == column {
                    assert(d[d.len() - 1].0 == c);
                } else {
                    let k = choose|k: int| 0 <= k < before.len() && #[trigger] before[k].0 == c;
                    assert(d[k] == before[k]);
                }
            }
            assert forall|k: int, j: int| 0 <= k < j < d.len() implies #[trigger] d[k].0
                < #[trigger] d[j].0 by {
                assert(d[k] == before[k]);
                if j < before.len() {
                    assert(d[j] == before[j]);
                }
            }
            assert forall|k: int| 0 <= k < d.len() implies (#[trigger] d[k]).0 < upto && d[k].1
                == texts[d[k].0 as int] && d[k].1.len() > 0 && d[k].2 == (d[k].0 >= 5) by {
                if k < before.len() {
                    assert(d[k] == before[k]);
                }
            }
        }
    }
}

/// Of a row's texts, exactly the non-empty ones are drawn, left to right:
/// each drawn cell holds the text of its own column and is aligned to the
/// right from column 5 on, and every non-empty text has a cell.
pub proof fn drawn_cells_are_the_texts(texts: Seq<Seq<char>>)
    ensures
        ({
            let d = drawn_cells(texts, texts.len());
            &&& forall|k: int|
                0 <= k < d.len() ==> (#[trigger] d[k]).0 < texts.len() && d[k].1 == texts[d[k].0 as int]
                    && d[k].1.len() > 0 && d[k].2 == (d[k].0 >= 5)
            &&& forall|k: int, j: int| 0 <= k < j < d.len() ==> #[trigger] d[k].0 < #[trigger] d[j].0
            &&& forall|c: int|
                0 <= c < texts.len() && (#[trigger] texts[c]).len() > 0 ==> exists|k: int|
                    0 <= k < d.len() && #[trigger] d[k].0 == c
        }),
{
    lemma_drawn_cells(texts, texts.len());
}

/// The customer section: name and identity document, activity description
/// and NRC (empty where the customer has none), address and telephone, an
/// empty references entry and the e-mail.
pub proof fn client_info_reads(r: Receptor)
    ensures
        ({
            let v = client_info_view(r);
            &&& v.len() == 4
            &&& v[0] == (("NOMBRE:"@, r.nombre@), ("TIPO Y Nº DOCUMENTO:"@, r.numDocumento@))
            &&& v[1].0 == ("ACTIVIDAD:"@, r.descActividad@)
            &&& v[1].1.0 == "NRC:"@
            &&& r.nrc matches Some(n) ==> v[1].1.1 == n@
            &&& r.nrc is None ==> v[1].1.1 == ""@
            &&& v[2] == (("DIRECCIÓN:"@, r.direccion.complemento@), ("TELÉFONO:"@, r.telefono@))
            &&& v[3] == (("REFERENCIAS:"@, ""@), ("CORREO:"@, r.correo@))
        }),
{
}

/// A product row has one cell per column heading: the position and the
/// quantity, the unit of measure, the code and the description, then the
/// unit price, the non-taxable, exempt and taxed sales and the line total,
/// each amount as the line gives it.
pub proof fn product_row_reads(
    index: nat,
    uni_medida: nat,
    codigo: Seq<char>,
    descripcion: Seq<char>,
    a: LineAmounts,
)
    ensures
        ({
            let v = product_row_view(index, uni_medida, codigo, descripcion, a);
            &&& v.len() == product_headers_view().len()
            &&& v.len() == 10
            &&& v[0] == decimal(index)
            &&& v[1] == a.cantidad@
            &&& v[2] == decimal(uni_medida)
            &&& v[3] == codigo
            &&& v[4] == descripcion
            &&& v[5] == a.precio_uni@
            &&& v[6] == a.venta_no_suj@
            &&& v[7] == a.venta_exenta@
            &&& v[8] == a.venta_gravada@
            &&& v[9] == a.total_linea@
        }),
{
}

/// The summary lists the operations before tax, the subtotal, the withheld
/// VAT and the total of the operation, in that order.
pub proof fn summary_reads(
    sin_impuesto: Seq<char>,
    sub_total: Seq<char>,
    iva_retenido: Seq<char>,
    monto_total: Seq<char>,
)
    ensures
        ({
            let v = summary_view(sin_impuesto, sub_total, iva_retenido, monto_total);
            &&& v.len() == 4
            &&& v[0] == ("Suma de operaciones sin impuesto"@, sin_impuesto)
            &&& v[1] == ("Sub total"@, sub_total)
            &&& v[2] == ("IVA retenido"@, iva_retenido)
            &&& v[3] == ("Monto total de la operación"@, monto_total)
        }),
{
}

} // verus!
