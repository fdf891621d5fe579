use vstd::prelude::*;

verus! {

/// The content types a write can declare.
#[derive(Clone, Copy, Debug, PartialEq, Eq, Structural)]
pub enum MimeType {
    OctetStream,
    TextPlain,
    TextCsv,
    ApplicationJson,
    ApplicationGzip,
}

impl MimeType {
    /// The MIME text of each content type.
    pub open spec fn spec_text(self) -> Seq<char> {
        match self {
            MimeType::OctetStream => "application/octet-stream"@,
            MimeType::TextPlain => "text/plain"@,
            MimeType::TextCsv => "text/csv"@,
            MimeType::ApplicationJson => "application/json"@,
            MimeType::ApplicationGzip => "application/gzip"@,
        }
    }

    /// The MIME text of this content type.
    pub fn as_str(&self) -> (r: &'static str)
        ensures
            r@ == self.spec_text(),
    {
        match *self {
            MimeType::OctetStream => "application/octet-stream",
            MimeType::TextPlain => "text/plain",
            MimeType::TextCsv => "text/csv",
            MimeType::ApplicationJson => "application/json",
            MimeType::ApplicationGzip => "application/gzip",
        }
    }
}

} // verus!
