use vstd::prelude::*;

verus! {

/// A JSON value that the library carries through without reading it.
#[verifier::external_type_specification]
#[verifier::external_body]
pub struct ExJsonValue(serde_json::Value);

/// A request to render a document with a title and a body.
pub struct PdfRequest {
    pub title: String,
    pub content: String,
}

/// The answer to a rendering request: a message and where the file was written.
pub struct PdfResponse {
    pub message: String,
    pub file_path: String,
}

/// The identification block of an electronic tax document.
pub struct Identificacion {
    pub version: u8,
    pub ambiente: String,
    pub tipoDte: String,
    pub numeroControl: String,
    pub codigoGeneracion: String,
    pub tipoModelo: u8,
    pub tipoOperacion: u8,
    pub tipoContingencia: Option<String>,
    pub motivoContin: Option<String>,
    pub fecEmi: String,
    pub horEmi: String,
    pub tipoMoneda: String,
}

/// The issuer of the document.
pub struct Emisor {
    pub nit: String,
    pub nrc: String,
    pub nombre: String,
    pub codActividad: String,
    pub descActividad: String,
    pub nombreComercial: String,
    pub tipoEstablecimiento: String,
    pub direccion: Direccion,
    pub telefono: String,
    pub correo: String,
    pub codEstableMH: String,
    pub codEstable: String,
    pub codPuntoVentaMH: Option<String>,
    pub codPuntoVenta: Option<String>,
}

/// The customer the document is made out to.
pub struct Receptor {
    pub tipoDocumento: String,
    pub numDocumento: String,
    pub nrc: Option<String>,
    pub nombre: String,
    pub codActividad: String,
    pub descActividad: String,
    pub direccion: Direccion,
    pub telefono: String,
    pub correo: String,
}

/// A postal address.
pub struct Direccion {
    pub departamento: String,
    pub municipio: String,
    pub complemento: String,
}

/// The tax authority's receipt of the document.
pub struct RecepcionMh {
    pub version: u8,
    pub ambiente: String,
    pub versionApp: u8,
    pub estado: String,
    pub codigoGeneracion: String,
    pub selloRecibido: String,
    pub fhProcesamiento: String,
    pub clasificaMsg: String,
    pub codigoMsg: String,
    pub descripcionMsg: String,
    pub observaciones: Vec<serde_json::Value>,
}

} // verus!
