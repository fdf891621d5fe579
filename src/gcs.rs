use vstd::prelude::*;

use crate::compression::CompressionError;
use crate::retry::{classify_status, is_transient_status, ErrorClass};

verus! {

/// Errors of the object-store backend.
#[derive(Debug)]
pub enum FileUtilGcsError {
    /// The identifier is not of the object-store kind (it lacks the `gs://` scheme),
    /// or an exact-object name ends with a separator.
    GcsInvalidBucketPathError(String),
    /// The identifier has the object-store scheme but breaks its grammar.
    InvalidGcsUrl(String),
    /// The storage service failed: with the status it answered, or with none where the
    /// request got no answer.
    StorageAccessError(String, Option<u16>),
    /// The payload could not be compressed or decompressed.
    CompressionError(CompressionError),
}

/// An object-store location: a bucket, an object name inside it, and whether the
/// identifier ended with a separator (a directory-like prefix).
#[derive(Debug, PartialEq)]
pub struct GcsFile {
    pub bucket: String,
    pub name: String,
    pub is_prefix: bool,
}

pub open spec fn gs_scheme() -> Seq<char> {
    seq!['g', 's', ':', '/', '/']
}

pub open spec fn has_gs_scheme(s: Seq<char>) -> bool {
    s.len() >= 5 && s.subrange(0, 5) == gs_scheme()
}

pub open spec fn no_slash(s: Seq<char>) -> bool {
    forall|j: int| 0 <= j < s.len() ==> s[j] != '/'
}

/// `k` is the position of the first `/` after the scheme, or the length when there is none.
pub open spec fn is_bucket_end(s: Seq<char>, k: int) -> bool {
    &&& 5 <= k <= s.len()
    &&& k < s.len() ==> s[k] == '/'
    &&& forall|j: int| 5 <= j < k ==> s[j] != '/'
}

pub open spec fn bucket_end(s: Seq<char>) -> int {
    choose|k: int| is_bucket_end(s, k)
}

/// The bucket of an identifier with the object-store scheme.
pub open spec fn parsed_bucket(s: Seq<char>) -> Seq<char> {
    s.subrange(5, bucket_end(s))
}

/// Whether a separator follows the bucket.
pub open spec fn has_name_part(s: Seq<char>) -> bool {
    bucket_end(s) < s.len()
}

/// Everything after the separator that follows the bucket, taken verbatim.
pub open spec fn raw_name(s: Seq<char>) -> Seq<char> {
    if has_name_part(s) {
        s.subrange(bucket_end(s) + 1, s.len() as int)
    } else {
        Seq::empty()
    }
}

pub open spec fn ends_with_slash(t: Seq<char>) -> bool {
    t.len() > 0 && t.last() == '/'
}

pub open spec fn starts_with_slash(t: Seq<char>) -> bool {
    t.len() > 0 && t[0] == '/'
}

/// An identifier with the object-store scheme that meets its grammar.
pub open spec fn valid_gs(s: Seq<char>) -> bool {
    &&& has_gs_scheme(s)
    &&& parsed_bucket(s).len() > 0
    &&& !starts_with_slash(raw_name(s))
}

/// The identifier ended with a separator.
pub open spec fn parsed_is_prefix(s: Seq<char>) -> bool {
    has_name_part(s) && (raw_name(s).len() == 0 || ends_with_slash(raw_name(s)))
}

/// The object name, with exactly one trailing separator removed.
pub open spec fn parsed_name(s: Seq<char>) -> Seq<char> {
    if ends_with_slash(raw_name(s)) {
        raw_name(s).drop_last()
    } else {
        raw_name(s)
    }
}

/// The name as it stands in the identifier: with the trailing separator of a prefix.
pub open spec fn name_with_separator(name: Seq<char>, is_prefix: bool) -> Seq<char> {
    if is_prefix && name.len() > 0 {
        name.push('/')
    } else {
        name
    }
}

/// Canonical text of an object-store location.
pub open spec fn render(bucket: Seq<char>, name: Seq<char>, is_prefix: bool) -> Seq<char> {
    if name.len() > 0 || is_prefix {
        gs_scheme() + bucket + seq!['/'] + name_with_separator(name, is_prefix)
    } else {
        gs_scheme() + bucket
    }
}

proof fn lemma_bucket_end_unique(s: Seq<char>, k: int)
    requires
        is_bucket_end(s, k),
    ensures
        bucket_end(s) == k,
{
    let c = bucket_end(s);
    assert(is_bucket_end(s, c));
    if c < k {
        assert(s[c] != '/');
    } else if k < c {
        assert(s[k] != '/');
    }
}

spec fn scan_slash(s: Seq<char>, i: int) -> int
    decreases s.len() - i,
{
    if i >= s.len() {
        s.len() as int
    } else if s[i] == '/' {
        i
    } else {
        scan_slash(s, i + 1)
    }
}

proof fn lemma_scan_slash(s: Seq<char>, i: int)
    requires
        5 <= i <= s.len(),
        forall|j: int| 5 <= j < i ==> s[j] != '/',
    ensures
        is_bucket_end(s, scan_slash(s, i)),
    decreases s.len() - i,
{
    if i < s.len() && s[i] != '/' {
        lemma_scan_slash(s, i + 1);
    }
}

proof fn lemma_bucket_end(s: Seq<char>)
    requires
        s.len() >= 5,
    ensures
        is_bucket_end(s, bucket_end(s)),
{
    lemma_scan_slash(s, 5);
}

/// Rendering a parsed object-store identifier gives back the identifier itself.
pub proof fn lemma_render_parse(s: Seq<char>)
    requires
        valid_gs(s),
    ensures
        render(parsed_bucket(s), parsed_name(s), parsed_is_prefix(s)) == s,
{
    lemma_bucket_end(s);
    let k = bucket_end(s);
    let b = parsed_bucket(s);
    let raw = raw_name(s);
    assert(s.subrange(0, 5) == gs_scheme());
    if k == s.len() {
        assert(gs_scheme() + b =~= s);
    } else {
        assert(raw =~= s.subrange(k + 1, s.len() as int));
        if ends_with_slash(raw) {
            assert(raw.len() >= 2) by {
                if raw.len() == 1 {
                    assert(raw[0] == '/');
                }
            }
            assert(raw.drop_last().push('/') =~= raw);
        }
        assert(gs_scheme() + b + seq!['/'] + raw =~= s);
    }
}

/// A bare `gs://bucket` parses to the bucket root: an empty, non-prefix name.
pub proof fn lemma_bucket_root(b: Seq<char>)
    requires
        b.len() > 0,
        no_slash(b),
    ensures
        valid_gs(gs_scheme() + b),
        parsed_bucket(gs_scheme() + b) == b,
        parsed_name(gs_scheme() + b).len() == 0,
        !parsed_is_prefix(gs_scheme() + b),
{
    let s = gs_scheme() + b;
    assert(s.subrange(0, 5) =~= gs_scheme());
    assert(is_bucket_end(s, s.len() as int));
    lemma_bucket_end_unique(s, s.len() as int);
    assert(s.subrange(5, s.len() as int) =~= b);
}

/// `gs://bucket//`, `gs:///name` and `gs://` are all malformed.
pub proof fn lemma_malformed(b: Seq<char>, n: Seq<char>)
    requires
        b.len() > 0,
        no_slash(b),
    ensures
        has_gs_scheme(gs_scheme() + b + seq!['/', '/']),
        !valid_gs(gs_scheme() + b + seq!['/', '/']),
        has_gs_scheme(gs_scheme() + seq!['/'] + n),
        !valid_gs(gs_scheme() + seq!['/'] + n),
        has_gs_scheme(gs_scheme()),
        !valid_gs(gs_scheme()),
{
    let s1 = gs_scheme() + b + seq!['/', '/'];
    assert(s1.subrange(0, 5) =~= gs_scheme());
    let k1: int = 5 + b.len() as int;
    assert(is_bucket_end(s1, k1));
    lemma_bucket_end_unique(s1, k1);
    assert(raw_name(s1) =~= seq!['/']);
    let s2 = gs_scheme() + seq!['/'] + n;
    assert(s2.subrange(0, 5) =~= gs_scheme());
    assert(is_bucket_end(s2, 5));
    lemma_bucket_end_unique(s2, 5);
    assert(parsed_bucket(s2).len() == 0);
    let s3 = gs_scheme();
    assert(s3.subrange(0, 5) =~= gs_scheme());
    assert(is_bucket_end(s3, 5));
    lemma_bucket_end_unique(s3, 5);
}

/// Adding a trailing separator to an exact-object identifier only turns it into a prefix:
/// the bucket and the name stay the same.
pub proof fn lemma_trailing_separator(s: Seq<char>)
    requires
        valid_gs(s),
        parsed_name(s).len() > 0,
        !parsed_is_prefix(s),
    ensures
        valid_gs(s.push('/')),
        parsed_bucket(s.push('/')) == parsed_bucket(s),
        parsed_name(s.push('/')) == parsed_name(s),
        parsed_is_prefix(s.push('/')),
{
    lemma_bucket_end(s);
    let k = bucket_end(s);
    let t = s.push('/');
    assert(t.subrange(0, 5) =~= s.subrange(0, 5));
    assert(k < s.len());
    assert(is_bucket_end(t, k));
    lemma_bucket_end_unique(t, k);
    assert(parsed_bucket(t) =~= parsed_bucket(s));
    assert(raw_name(t) =~= raw_name(s).push('/'));
    assert(raw_name(t).drop_last() =~= raw_name(s));
    assert(raw_name(t)[0] == raw_name(s)[0]);
}

/// Identifier of an object that a listing of `bucket` returned under `name`.
pub open spec fn object_identifier(bucket: Seq<char>, name: Seq<char>) -> Seq<char> {
    gs_scheme() + bucket + seq!['/'] + name
}

/// The names that each page of a listing holds (nothing for a failed page).
pub open spec fn page_views(pages: Seq<Result<Vec<String>, FileUtilGcsError>>) -> Seq<Seq<Seq<char>>> {
    pages.map_values(|p: Result<Vec<String>, FileUtilGcsError>|
        match p {
            Ok(v) => v.deep_view(),
            Err(_) => Seq::empty(),
        })
}

pub open spec fn all_pages_ok(pages: Seq<Result<Vec<String>, FileUtilGcsError>>) -> bool {
    forall|i: int| 0 <= i < pages.len() ==> (#[trigger] pages[i]) is Ok
}

/// The identifiers of all listed objects, page after page, in the order of the listing.
pub open spec fn listed_identifiers(bucket: Seq<char>, pages: Seq<Seq<Seq<char>>>) -> Seq<Seq<char>>
    decreases pages.len(),
{
    if pages.len() == 0 {
        Seq::empty()
    } else {
        listed_identifiers(bucket, pages.drop_last()) + pages.last().map_values(
            |n: Seq<char>| object_identifier(bucket, n),
        )
    }
}

/// Some page of a listing holds exactly `name`.
pub open spec fn listing_contains(pages: Seq<Seq<Seq<char>>>, name: Seq<char>) -> bool {
    exists|i: int, j: int| 0 <= i < pages.len() && 0 <= j < pages[i].len() && pages[i][j] == name
}

/// Listing over two pages gives the first page's objects followed by the second's.
pub proof fn lemma_two_pages(bucket: Seq<char>, p1: Seq<Seq<char>>, p2: Seq<Seq<char>>)
    ensures
        listed_identifiers(bucket, seq![p1, p2]) == p1.map_values(
            |n: Seq<char>| object_identifier(bucket, n),
        ) + p2.map_values(|n: Seq<char>| object_identifier(bucket, n)),
        listed_identifiers(bucket, seq![p1, p2]).len() == p1.len() + p2.len(),
{
    let pages = seq![p1, p2];
    assert(pages.drop_last() =~= seq![p1]);
    assert(seq![p1].drop_last() =~= Seq::<Seq<Seq<char>>>::empty());
    assert(listed_identifiers(bucket, Seq::<Seq<Seq<char>>>::empty()) == Seq::<Seq<char>>::empty());
    assert(seq![p1].last() == p1);
    assert(listed_identifiers(bucket, seq![p1]) =~= p1.map_values(
        |n: Seq<char>| object_identifier(bucket, n),
    ));
}

/// Distinct object names in a listing give distinct identifiers.
pub proof fn lemma_identifiers_distinct(bucket: Seq<char>, a: Seq<char>, b: Seq<char>)
    requires
        a != b,
    ensures
        object_identifier(bucket, a) != object_identifier(bucket, b),
{
    let pre = gs_scheme() + bucket + seq!['/'];
    assert(object_identifier(bucket, a) == pre + a);
    assert(object_identifier(bucket, b) == pre + b);
    if pre + a == pre + b {
        assert(a =~= (pre + a).subrange(pre.len() as int, (pre + a).len() as int));
        assert(b =~= (pre + b).subrange(pre.len() as int, (pre + b).len() as int));
    }
}

/// Builds the identifier of a listed object.
fn identifier_of(bucket: &str, name: &str) -> (r: String)
    ensures
        r@ == object_identifier(bucket@, name@),
{
    let mut r = String::from_str("gs://");
    proof {
        reveal_strlit("gs://");
        reveal_strlit("/");
    }
    r.append(bucket);
    r.append("/");
    r.append(name);
    assert(r@ =~= object_identifier(bucket@, name@));
    r
}

/// Gathers the pages of a listing of `bucket` into one sequence of identifiers.
/// A failed page fails the whole listing with that page's error: no partial result
/// is returned.
pub fn list_objects(bucket: &str, pages: Vec<Result<Vec<String>, FileUtilGcsError>>) -> (r: Result<
    Vec<String>,
    FileUtilGcsError,
>)
    ensures
        r is Ok <==> all_pages_ok(pages@),
        r is Ok ==> r->Ok_0.deep_view() == listed_identifiers(bucket@, page_views(pages@)),
        r is Err ==> exists|i: int|
            0 <= i < pages@.len() && all_pages_ok(pages@.subrange(0, i)) && (#[trigger] pages@[i]) is Err
                && r->Err_0 == pages@[i]->Err_0,
{
    let ghost all = pages@;
    let total = pages.len();
    let mut rest = pages;
    let mut result: Vec<String> = Vec::new();
    let mut i: usize = 0;
    while rest.len() > 0
        invariant
            i + rest@.len() == all.len(),
            all.len() == total,
            all == pages@,
            rest@ == all.subrange(i as int, all.len() as int),
            all_pages_ok(all.subrange(0, i as int)),
            result.deep_view() == listed_identifiers(bucket@, page_views(all.subrange(0, i as int))),
        decreases rest@.len(),
    {
        let page = rest.remove(0);
        assert(page == all[i as int]);
        match page {
            Err(e) => {
                assert(all[i as int] is Err);
                assert(all[i as int]->Err_0 == e);
                assert(!all_pages_ok(all));
                return Err(e);
            },
            Ok(names) => {
                let ghost before = result.deep_view();
                let mut j: usize = 0;
                while j < names.len()
                    invariant
                        j <= names@.len(),
                        result.deep_view() == before + names.deep_view().subrange(0, j as int).map_values(
                            |n: Seq<char>| object_identifier(bucket@, n),
                        ),
                    decreases names@.len() - j,
                {
                    let id = identifier_of(bucket, names[j].as_str());
                    let ghost prev = result@;
                    result.push(id);
                    proof {
                        assert(result@ == prev.push(id));
                        assert(result.deep_view() =~= Seq::new(prev.len(), |t: int| prev[t].deep_view()).push(id@));
                        assert(names.deep_view().subrange(0, j + 1) =~= names.deep_view().subrange(
                            0,
                            j as int,
                        ).push(names@[j as int]@));
                        assert(result.deep_view() =~= before + names.deep_view().subrange(
                            0,
                            j + 1,
                        ).map_values(|n: Seq<char>| object_identifier(bucket@, n)));
                    }
                    j = j + 1;
                }
                proof {
                    assert(names.deep_view().subrange(0, names@.len() as int) =~= names.deep_view());
                    let done = all.subrange(0, i + 1);
                    assert(page_views(done).drop_last() =~= page_views(all.subrange(0, i as int)));
                    assert(page_views(done).last() == names.deep_view());
                    assert(all_pages_ok(done)) by {
                        assert forall|t: int| 0 <= t < done.len() implies (#[trigger] done[t]) is Ok by {
                            if t < i {
                                assert(done[t] == all.subrange(0, i as int)[t]);
                            }
                        }
                    }
                }
                i = i + 1;
                assert(rest@ =~= all.subrange(i as int, all.len() as int));
            },
        }
    }
    assert(all.subrange(0, i as int) =~= all);
    Ok(result)
}

/// Whether a listing holds an object named exactly `name`. Exact-object names may not
/// end with a separator.
pub fn find_object(name: &str, pages: &Vec<Vec<String>>) -> (r: Result<bool, FileUtilGcsError>)
    ensures
        ends_with_slash(name@) <==> r is Err,
        r is Err ==> r->Err_0 is GcsInvalidBucketPathError,
        r is Ok ==> r->Ok_0 == listing_contains(pages.deep_view(), name@),
{
    let n = name.unicode_len();
    if n > 0 && name.get_char(n - 1) == '/' {
        return Err(FileUtilGcsError::GcsInvalidBucketPathError(String::from_str(name)));
    }
    assert(!ends_with_slash(name@));
    let target = String::from_str(name);
    let mut i: usize = 0;
    while i < pages.len()
        invariant
            i <= pages@.len(),
            target@ == name@,
            !ends_with_slash(name@),
            forall|a: int, b: int|
                0 <= a < i && 0 <= b < pages.deep_view()[a].len() ==> pages.deep_view()[a][b]
                    != name@,
        decreases pages@.len() - i,
    {
        let page = &pages[i];
        let mut j: usize = 0;
        while j < page.len()
            invariant
                i < pages@.len(),
                page == pages@[i as int],
                j <= page@.len(),
                target@ == name@,
                !ends_with_slash(name@),
                forall|b: int| 0 <= b < j ==> page@[b]@ != name@,
            decreases page@.len() - j,
        {
            if page[j] == target {
                assert(pages.deep_view()[i as int][j as int] == name@);
                return Ok(true);
            }
            j = j + 1;
        }
        i = i + 1;
    }
    Ok(false)
}

/// Whether the names of the listed buckets hold `bucket`.
pub fn find_bucket(bucket_names: &Vec<String>, bucket: &str) -> (r: bool)
    ensures
        r == exists|i: int| 0 <= i < bucket_names@.len() && (#[trigger] bucket_names@[i])@ == bucket@,
{
    let target = String::from_str(bucket);
    let mut i: usize = 0;
    while i < bucket_names.len()
        invariant
            i <= bucket_names@.len(),
            target@ == bucket@,
            forall|j: int| 0 <= j < i ==> (#[trigger] bucket_names@[j])@ != bucket@,
        decreases bucket_names@.len() - i,
    {
        if bucket_names[i] == target {
            return true;
        }
        i = i + 1;
    }
    false
}

impl GcsFile {
    pub open spec fn wf(&self) -> bool {
        &&& self.bucket@.len() > 0
        &&& no_slash(self.bucket@)
        &&& !starts_with_slash(self.name@)
        &&& !self.is_prefix ==> !ends_with_slash(self.name@)
    }

    pub open spec fn spec_render(&self) -> Seq<char> {
        render(self.bucket@, self.name@, self.is_prefix)
    }

    /// Parses an object-store identifier `gs://bucket[/name][/]`.
    pub fn new(maybe_url_string: String) -> (r: Result<GcsFile, FileUtilGcsError>)
        ensures
            !has_gs_scheme(maybe_url_string@) <==> r is Err && r->Err_0 is GcsInvalidBucketPathError,
            has_gs_scheme(maybe_url_string@) && !valid_gs(maybe_url_string@) <==> r is Err
                && r->Err_0 is InvalidGcsUrl,
            valid_gs(maybe_url_string@) <==> r is Ok,
            r is Ok ==> {
                let f = r->Ok_0;
                &&& f.bucket@ == parsed_bucket(maybe_url_string@)
                &&& f.name@ == parsed_name(maybe_url_string@)
                &&& f.is_prefix == parsed_is_prefix(maybe_url_string@)
                &&& f.wf()
            },
    {
        Self::new_with_url(maybe_url_string.as_str())
    }

    /// Parses an object-store identifier given as text.
    pub fn new_with_url(url: &str) -> (r: Result<GcsFile, FileUtilGcsError>)
        ensures
            !has_gs_scheme(url@) <==> r is Err && r->Err_0 is GcsInvalidBucketPathError,
            has_gs_scheme(url@) && !valid_gs(url@) <==> r is Err && r->Err_0 is InvalidGcsUrl,
            valid_gs(url@) <==> r is Ok,
            r is Ok ==> {
                let f = r->Ok_0;
                &&& f.bucket@ == parsed_bucket(url@)
                &&& f.name@ == parsed_name(url@)
                &&& f.is_prefix == parsed_is_prefix(url@)
                &&& f.wf()
            },
    {
        let n = url.unicode_len();
        if n < 5 || url.get_char(0) != 'g' || url.get_char(1) != 's' || url.get_char(2) != ':'
            || url.get_char(3) != '/' || url.get_char(4) != '/' {
            assert(!has_gs_scheme(url@)) by {
                if has_gs_scheme(url@) {
                    assert(url@[0] == url@.subrange(0, 5)[0]);
                    assert(url@[1] == url@.subrange(0, 5)[1]);
                    assert(url@[2] == url@.subrange(0, 5)[2]);
                    assert(url@[3] == url@.subrange(0, 5)[3]);
                    assert(url@[4] == url@.subrange(0, 5)[4]);
                }
            }
            return Err(FileUtilGcsError::GcsInvalidBucketPathError(String::from_str(url)));
        }
        assert(url@.subrange(0, 5) =~= gs_scheme());
        let mut k: usize = 5;
        while k < n
            invariant
                5 <= k <= n,
                n == url@.len(),
                forall|j: int| 5 <= j < k ==> url@[j] != '/',
            ensures
                5 <= k <= n,
                k < n ==> url@[k as int] == '/',
                forall|j: int| 5 <= j < k ==> url@[j] != '/',
            decreases n - k,
        {
            if url.get_char(k) == '/' {
                break;
            }
            k = k + 1;
        }
        proof {
            lemma_bucket_end_unique(url@, k as int);
        }
        if k == 5 {
            return Err(FileUtilGcsError::InvalidGcsUrl(String::from_str(url)));
        }
        let bucket = String::from_str(url.substring_char(5, k));
        if k == n {
            assert(raw_name(url@) =~= Seq::<char>::empty());
            return Ok(GcsFile { bucket, name: String::new(), is_prefix: false });
        }
        assert(raw_name(url@) =~= url@.subrange(k + 1, n as int));
        if k + 1 < n && url.get_char(k + 1) == '/' {
            return Err(FileUtilGcsError::InvalidGcsUrl(String::from_str(url)));
        }
        if k + 1 < n && url.get_char(n - 1) == '/' {
            let name = String::from_str(url.substring_char(k + 1, n - 1));
            assert(name@ =~= raw_name(url@).drop_last());
            Ok(GcsFile { bucket, name, is_prefix: true })
        } else {
            let name = String::from_str(url.substring_char(k + 1, n));
            Ok(GcsFile { bucket, name, is_prefix: k + 1 == n })
        }
    }

    /// The name prefix that a listing of this location asks for.
    pub fn list_prefix(&self) -> (r: String)
        ensures
            r@ == name_with_separator(self.name@, self.is_prefix),
    {
        let mut r = self.name.clone();
        if self.is_prefix && self.name.unicode_len() > 0 {
            proof {
                reveal_strlit("/");
            }
            r.append("/");
        }
        r
    }

    /// Renders the location back to its canonical identifier.
    pub fn to_string(&self) -> (r: String)
        ensures
            r@ == self.spec_render(),
    {
        let mut r = String::from_str("gs://");
        proof {
            reveal_strlit("gs://");
            reveal_strlit("/");
        }
        assert(r@ =~= gs_scheme());
        r.append(self.bucket.as_str());
        if self.name.unicode_len() > 0 || self.is_prefix {
            r.append("/");
            r.append(self.name.as_str());
            if self.is_prefix && self.name.unicode_len() > 0 {
                r.append("/");
            }
        }
        assert(r@ =~= self.spec_render());
        r
    }
}

impl FileUtilGcsError {
    /// A storage failure without an answer, or answered with a timeout or server error,
    /// may pass and is retried; any other answer, a malformed address or a codec failure
    /// does not change on a retry.
    pub fn classify(&self) -> (r: ErrorClass)
        ensures
            r == ErrorClass::Transient <==> (self is StorageAccessError && (self->StorageAccessError_1 is None
                || is_transient_status(self->StorageAccessError_1->Some_0))),
    {
        match self {
            FileUtilGcsError::StorageAccessError(_, None) => ErrorClass::Transient,
            FileUtilGcsError::StorageAccessError(_, Some(status)) => classify_status(*status),
            _ => ErrorClass::Permanent,
        }
    }
}

} // verus!
