use vstd::prelude::*;

pub mod compression;
pub mod fs;
pub mod gcs;
pub mod mime;
pub mod retry;
pub mod web;

use crate::fs::FileUtilFsError;
use crate::gcs::{
    has_gs_scheme, parsed_bucket, parsed_is_prefix, parsed_name, valid_gs, FileUtilGcsError,
    GcsFile,
};
use crate::web::FileUtilWebError;

verus! {

/// Every failure of the access layer, tagged with its kind.
#[derive(Debug)]
pub enum FileUtilError {
    GcsError(FileUtilGcsError),
    WebError(FileUtilWebError),
    FsError(FileUtilFsError),
    /// The identifier matches no address grammar, or breaks the rules of the kind it matches.
    InvalidAddress(String),
    /// The resolved backend does not offer the requested operation.
    UnsupportedOperation(String),
    /// The contents are not valid UTF-8 text.
    DecodeError(String),
}

/// The typed form of an identifier.
#[derive(Debug)]
pub enum ResourceAddress {
    LocalPath(String),
    ObjectLocation(GcsFile),
    WebLocation(String),
}

/// The operations of the uniform API.
#[derive(Clone, Copy, Debug, PartialEq, Eq, Structural)]
pub enum Operation {
    Exists,
    Read,
    Write,
    List,
    Delete,
}

/// The kinds of address, in the order in which they are tried.
#[derive(Clone, Copy, Debug, PartialEq, Eq, Structural)]
pub enum AddressKind {
    ObjectStore,
    Web,
    Local,
    Invalid,
}

/// The scheme that the url crate reads in `s`, or `None` where `s` is no absolute URL.
pub uninterp spec fn url_scheme_of(s: Seq<char>) -> Option<Seq<char>>;

/// The text that the UTF-8 bytes `b` hold, or `None` where they are not valid UTF-8.
pub uninterp spec fn utf8_text_of(b: Seq<u8>) -> Option<Seq<char>>;

/// Relies on `url::Url::parse` and `Url::scheme`: the scheme of the parsed URL.
#[verifier::external_body]
fn url_scheme(s: &str) -> (r: Option<String>)
    ensures
        r is Some <==> url_scheme_of(s@) is Some,
        r is Some ==> r->Some_0@ == url_scheme_of(s@)->Some_0,
{
    url::Url::parse(s).ok().map(|u| u.scheme().to_string())
}

/// Relies on `std::str::from_utf8`: the text that valid UTF-8 bytes hold.
#[verifier::external_body]
fn utf8_text(b: &[u8]) -> (r: Option<String>)
    ensures
        r is Some <==> utf8_text_of(b@) is Some,
        r is Some ==> r->Some_0@ == utf8_text_of(b@)->Some_0,
{
    std::str::from_utf8(b).ok().map(|t| t.to_string())
}

pub open spec fn is_web_scheme(scheme: Option<Seq<char>>) -> bool {
    scheme is Some && (scheme->Some_0 == "http"@ || scheme->Some_0 == "https"@)
}

/// The kind of address an identifier resolves to: object store first, then web, then a
/// non-empty local path.
pub open spec fn address_kind(s: Seq<char>) -> AddressKind {
    if has_gs_scheme(s) {
        if valid_gs(s) {
            AddressKind::ObjectStore
        } else {
            AddressKind::Invalid
        }
    } else if is_web_scheme(url_scheme_of(s)) {
        AddressKind::Web
    } else if s.len() > 0 {
        AddressKind::Local
    } else {
        AddressKind::Invalid
    }
}

/// An exact-object operation: it needs a non-empty name that is no prefix.
pub open spec fn is_exact_object_op(op: Operation) -> bool {
    op != Operation::List
}

/// Whether the backend of `kind` offers `op`.
pub open spec fn supports(kind: AddressKind, op: Operation) -> bool {
    match kind {
        AddressKind::Web => op == Operation::Exists || op == Operation::Read,
        AddressKind::Local => op != Operation::Delete,
        _ => true,
    }
}

/// The identifier names an exact object where the operation needs one.
pub open spec fn names_exact_object(s: Seq<char>) -> bool {
    parsed_name(s).len() > 0 && !parsed_is_prefix(s)
}

/// The address matches the identifier it was resolved from.
pub open spec fn address_matches(a: ResourceAddress, s: Seq<char>) -> bool {
    match a {
        ResourceAddress::ObjectLocation(f) => {
            &&& address_kind(s) == AddressKind::ObjectStore
            &&& f.bucket@ == parsed_bucket(s)
            &&& f.name@ == parsed_name(s)
            &&& f.is_prefix == parsed_is_prefix(s)
            &&& f.wf()
        },
        ResourceAddress::WebLocation(u) => address_kind(s) == AddressKind::Web && u@ == s,
        ResourceAddress::LocalPath(p) => address_kind(s) == AddressKind::Local && p@ == s,
    }
}

/// Resolves an identifier into its address, trying the object-store grammar, then a
/// web URL, then a local path.
pub fn resolve(url_or_path_str: &str) -> (r: Result<ResourceAddress, FileUtilError>)
    ensures
        r is Ok <==> address_kind(url_or_path_str@) != AddressKind::Invalid,
        r is Ok ==> address_matches(r->Ok_0, url_or_path_str@),
        r is Err ==> r->Err_0 is InvalidAddress,
{
    match GcsFile::new_with_url(url_or_path_str) {
        Ok(f) => {
            return Ok(ResourceAddress::ObjectLocation(f));
        },
        Err(FileUtilGcsError::InvalidGcsUrl(s)) => {
            return Err(FileUtilError::InvalidAddress(s));
        },
        Err(_) => {},
    }
    let web = match url_scheme(url_or_path_str) {
        Some(scheme) => {
            proof {
                reveal_strlit("http");
                reveal_strlit("https");
            }
            let http = String::from_str("http");
            let https = String::from_str("https");
            scheme == http || scheme == https
        },
        None => false,
    };
    assert(web == is_web_scheme(url_scheme_of(url_or_path_str@)));
    if web {
        Ok(ResourceAddress::WebLocation(String::from_str(url_or_path_str)))
    } else if url_or_path_str.unicode_len() > 0 {
        Ok(ResourceAddress::LocalPath(String::from_str(url_or_path_str)))
    } else {
        Err(FileUtilError::InvalidAddress(String::from_str(url_or_path_str)))
    }
}

/// Whether `op` may go ahead on the identifier `s`: it resolves, its backend offers `op`,
/// and an exact-object operation on the object store names an exact object.
pub open spec fn routable(s: Seq<char>, op: Operation) -> bool {
    let kind = address_kind(s);
    &&& kind != AddressKind::Invalid
    &&& supports(kind, op)
    &&& (kind == AddressKind::ObjectStore && is_exact_object_op(op)) ==> names_exact_object(s)
}

/// Resolves an identifier for `op`, refusing what the resolved backend cannot do before
/// any backend call: exact-object operations on a bucket root or a prefix, listing,
/// writing or deleting over the web, deleting a local file.
pub fn route(url_or_path_str: &str, op: Operation) -> (r: Result<ResourceAddress, FileUtilError>)
    ensures
        r is Ok <==> routable(url_or_path_str@, op),
        r is Ok ==> address_matches(r->Ok_0, url_or_path_str@),
        address_kind(url_or_path_str@) == AddressKind::Invalid ==> r is Err && r->Err_0 is InvalidAddress,
        address_kind(url_or_path_str@) != AddressKind::Invalid && !supports(
            address_kind(url_or_path_str@),
            op,
        ) ==> r is Err && r->Err_0 is UnsupportedOperation,
        address_kind(url_or_path_str@) == AddressKind::ObjectStore && is_exact_object_op(op)
            && !names_exact_object(url_or_path_str@) ==> r is Err && r->Err_0 is InvalidAddress,
{
    let address = resolve(url_or_path_str)?;
    match address {
        ResourceAddress::ObjectLocation(f) => {
            let exact = f.name.unicode_len() > 0 && !f.is_prefix;
            if !exact && !matches!(op, Operation::List) {
                Err(FileUtilError::InvalidAddress(String::from_str(url_or_path_str)))
            } else {
                Ok(ResourceAddress::ObjectLocation(f))
            }
        },
        ResourceAddress::WebLocation(u) => {
            if matches!(op, Operation::Exists) || matches!(op, Operation::Read) {
                Ok(ResourceAddress::WebLocation(u))
            } else {
                Err(FileUtilError::UnsupportedOperation(u))
            }
        },
        ResourceAddress::LocalPath(p) => {
            if matches!(op, Operation::Delete) {
                Err(FileUtilError::UnsupportedOperation(p))
            } else {
                Ok(ResourceAddress::LocalPath(p))
            }
        },
    }
}

/// Reads contents as text: absent contents stay absent, and bytes that are not UTF-8 fail.
pub fn decode_text(contents: Option<Vec<u8>>) -> (r: Result<Option<String>, FileUtilError>)
    ensures
        contents is None ==> r is Ok && r->Ok_0 is None,
        contents is Some ==> (r is Ok <==> utf8_text_of(contents->Some_0@) is Some),
        contents is Some && r is Ok ==> r->Ok_0 is Some && r->Ok_0->Some_0@ == utf8_text_of(
            contents->Some_0@,
        )->Some_0,
        r is Err ==> r->Err_0 is DecodeError,
{
    match contents {
        None => Ok(None),
        Some(bytes) => match utf8_text(bytes.as_slice()) {
            Some(t) => Ok(Some(t)),
            None => Err(FileUtilError::DecodeError(String::new())),
        },
    }
}

} // verus!
