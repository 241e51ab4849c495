use factura_pdf::email::{build_html_body, email_subject};
use factura_pdf::model::{Direccion, Emisor, Identificacion, RecepcionMh, Receptor};
use factura_pdf::sections::{
    client_info_rows, column_is_right_aligned, document_info_fields, emisor_info_rows,
    extra_info_rows, product_row_cells, product_table_headers, qr_consulta_url, summary_rows,
    table_cells, LineAmounts,
};

fn s(v: &str) -> String {
    v.to_string()
}

fn direccion() -> Direccion {
    Direccion { departamento: s("06"), municipio: s("14"), complemento: s("Calle 1, San Salvador") }
}

fn identificacion() -> Identificacion {
    Identificacion {
        version: 1,
        ambiente: s("00"),
        tipoDte: s("01"),
        numeroControl: s("DTE-01-0001-000000000000001"),
        codigoGeneracion: s("ABC-123"),
        tipoModelo: 1,
        tipoOperacion: 1,
        tipoContingencia: None,
        motivoContin: None,
        fecEmi: s("2024-05-01"),
        horEmi: s("10:20:30"),
        tipoMoneda: s("USD"),
    }
}

fn emisor() -> Emisor {
    Emisor {
        nit: s("0614-010101-101-1"),
        nrc: s("1234-5"),
        nombre: s("Empresa S.A."),
        codActividad: s("46900"),
        descActividad: s("Venta al por mayor"),
        nombreComercial: s("Empresa"),
        tipoEstablecimiento: s("02"),
        direccion: direccion(),
        telefono: s("2222-2222"),
        correo: s("ventas@empresa.sv"),
        codEstableMH: s("M001"),
        codEstable: s("0001"),
        codPuntoVentaMH: None,
        codPuntoVenta: None,
    }
}

fn receptor(nrc: Option<String>) -> Receptor {
    Receptor {
        tipoDocumento: s("36"),
        numDocumento: s("0614-020202-102-2"),
        nrc,
        nombre: s("Cliente"),
        codActividad: s("10005"),
        descActividad: s("Otros"),
        direccion: direccion(),
        telefono: s("7777-7777"),
        correo: s("cliente@correo.sv"),
    }
}

fn recepcion() -> RecepcionMh {
    RecepcionMh {
        version: 2,
        ambiente: s("01"),
        versionApp: 2,
        estado: s("PROCESADO"),
        codigoGeneracion: s("GEN-9"),
        selloRecibido: s("SELLO-77"),
        fhProcesamiento: s("01/05/2024"),
        clasificaMsg: s("10"),
        codigoMsg: s("001"),
        descripcionMsg: s("RECIBIDO"),
        observaciones: vec![],
    }
}

#[test]
fn emisor_rows() {
    let rows = emisor_info_rows(&emisor());
    let got: Vec<(String, String)> = rows.into_iter().map(|r| (r.label, r.value)).collect();
    assert_eq!(
        got,
        vec![
            (s("NIT:"), s(" 0614-010101-101-1")),
            (s("NRC:"), s(" 1234-5")),
            (s("COD ACTIVIDAD:"), s(" 46900")),
            (s("ACTIVIDAD:"), s(" Venta al por mayor")),
            (s("DIRECCIÓN:"), s(" Calle 1, San Salvador")),
            (s("TELÉFONO:"), s(" 2222-2222")),
            (s("CORREO:"), s(" ventas@empresa.sv")),
        ]
    );
}

#[test]
fn document_fields_in_two_columns() {
    let fields = document_info_fields(&identificacion(), &recepcion());
    let got: Vec<(String, String, usize, usize)> =
        fields.into_iter().map(|f| (f.label, f.value, f.column, f.row)).collect();
    assert_eq!(
        got,
        vec![
            (s("CÓDIGO DE GENERACIÓN:"), s("ABC-123"), 0, 0),
            (s("SELLO RECEPCIÓN:"), s("SELLO-77"), 0, 1),
            (s("NÚMERO DE CONTROL:"), s("DTE-01-0001-000000000000001"), 0, 2),
            (s("MODELO FACTURACIÓN:"), s("1"), 0, 3),
            (s("VERSIÓN DEL JSON:"), s("1"), 0, 4),
            (s("TIPO DE TRANSMISIÓN:"), s("PROCESADO"), 0, 5),
            (s("FECHA DE EMISIÓN:"), s("2024-05-01"), 1, 0),
            (s("MONEDA:"), s("USD"), 1, 1),
            (s("HORA DE EMISIÓN:"), s("10:20:30"), 1, 2),
        ]
    );
}

#[test]
fn extra_rows_are_empty() {
    let rows = extra_info_rows();
    let labels: Vec<String> = rows.iter().map(|r| r.label.clone()).collect();
    assert_eq!(
        labels,
        vec![
            s("CÓDIGO CLIENTE:"),
            s("NÚMERO DE CONTROL:"),
            s("VENDEDOR:"),
            s("CÓDIGO ALMACÉN:"),
            s("Nº DOCUMENTO:"),
            s("ORDEN DE COMPRA:"),
        ]
    );
    assert!(rows.iter().all(|r| r.value.is_empty()));
}

#[test]
fn consulta_url() {
    assert_eq!(
        qr_consulta_url(&recepcion(), &identificacion()),
        "https://admin.factura.gob.sv/consultaPublica?ambiente=01&codGen=GEN-9&fechaEmi=2024-05-01"
    );
}

#[test]
fn client_rows_with_and_without_nrc() {
    let rows = client_info_rows(&receptor(Some(s("999-1"))));
    assert_eq!(rows.len(), 4);
    assert_eq!((rows[0].left.label.as_str(), rows[0].left.value.as_str()), ("NOMBRE:", "Cliente"));
    assert_eq!(
        (rows[0].right.label.as_str(), rows[0].right.value.as_str()),
        ("TIPO Y Nº DOCUMENTO:", "0614-020202-102-2")
    );
    assert_eq!((rows[1].right.label.as_str(), rows[1].right.value.as_str()), ("NRC:", "999-1"));
    assert_eq!((rows[2].left.label.as_str(), rows[2].left.value.as_str()), ("DIRECCIÓN:", "Calle 1, San Salvador"));
    assert_eq!((rows[3].left.label.as_str(), rows[3].left.value.as_str()), ("REFERENCIAS:", ""));
    assert_eq!((rows[3].right.label.as_str(), rows[3].right.value.as_str()), ("CORREO:", "cliente@correo.sv"));

    let rows = client_info_rows(&receptor(None));
    assert_eq!(rows[1].right.value, "");
}

#[test]
fn table_headers_and_alignment() {
    assert_eq!(
        product_table_headers(),
        vec![
            "Num", " Cant", "Unidad Medida", "Código", "Descripción", "Precio Unit", "Descuento",
            "No Sujetas", "Exentas", "Gravadas"
        ]
    );
    assert!(!column_is_right_aligned(4));
    assert!(column_is_right_aligned(5));
    assert!(column_is_right_aligned(9));
}

fn amounts() -> LineAmounts {
    LineAmounts {
        cantidad: s("2.00"),
        precio_uni: s("3.50"),
        venta_no_suj: s("0.00"),
        venta_exenta: s(""),
        venta_gravada: s("7.00"),
        total_linea: s("7.00"),
    }
}

#[test]
fn product_row_order() {
    let cells = product_row_cells(3, 59, "P-01", "Tornillo", amounts());
    assert_eq!(
        cells,
        vec!["3", "2.00", "59", "P-01", "Tornillo", "3.50", "0.00", "", "7.00", "7.00"]
    );
}

#[test]
fn empty_cells_are_skipped() {
    let cells = product_row_cells(0, 1, "", "Servicio", amounts());
    let drawn = table_cells(&cells);
    let got: Vec<(usize, String, bool)> =
        drawn.into_iter().map(|c| (c.column, c.text, c.right_aligned)).collect();
    assert_eq!(
        got,
        vec![
            (0, s("0"), false),
            (1, s("2.00"), false),
            (2, s("1"), false),
            (4, s("Servicio"), false),
            (5, s("3.50"), true),
            (6, s("0.00"), true),
            (8, s("7.00"), true),
            (9, s("7.00"), true),
        ]
    );
}

#[test]
fn summary_labels() {
    let rows = summary_rows("10.00", "11.30", "0.00", "11.30");
    let got: Vec<(String, String)> = rows.into_iter().map(|r| (r.label, r.value)).collect();
    assert_eq!(
        got,
        vec![
            (s("Suma de operaciones sin impuesto"), s("10.00")),
            (s("Sub total"), s("11.30")),
            (s("IVA retenido"), s("0.00")),
            (s("Monto total de la operación"), s("11.30")),
        ]
    );
}

#[test]
fn html_body_fills_placeholders() {
    let template = "<p>{{dte_number}}</p><p>{{code_generation}}</p><p>{{sello_hacienda}}</p><p>{{dte_number}}</p>";
    assert_eq!(
        build_html_body(template, &identificacion(), &recepcion()),
        "<p>DTE-01-0001-000000000000001</p><p>ABC-123</p><p>SELLO-77</p><p>DTE-01-0001-000000000000001</p>"
    );
}

#[test]
fn html_body_without_placeholders_is_unchanged() {
    let template = "<html><body>Gracias por su compra</body></html>";
    assert_eq!(build_html_body(template, &identificacion(), &recepcion()), template);
}

#[test]
fn subject_names_the_issuer() {
    assert_eq!(email_subject("Empresa S.A."), "Factura electrónica - Empresa S.A.");
}
