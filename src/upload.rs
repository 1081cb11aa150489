//! Acceptance of an uploaded file: size and type checks, the storage path it
//! is kept under, and the receipt returned before extraction runs.
use vstd::prelude::*;
use crate::ledger::{Document, status_name};
use crate::text::{decimal, decimal_string};

verus! {

/// The largest accepted upload, in bytes (50 MiB).
pub const MAX_FILE_SIZE: usize = 50 * 1024 * 1024;

/// The receipt of an accepted upload.
pub struct UploadResponse {
    pub id: String,
    pub file_name: String,
    pub file_path: String,
    pub extraction_status: String,
    pub message: String,
}

/// Why an upload was refused.
pub struct ErrorResponse {
    pub error: String,
}

/// The lower-case form of a text, as `str::to_lowercase` computes it.
pub uninterp spec fn lowercase_of(s: Seq<char>) -> Seq<char>;

/// Relies on `str::to_lowercase`: the result depends on the characters alone.
#[verifier::external_body]
fn to_lowercase(s: &str) -> (r: String)
    ensures
        r@ == lowercase_of(s@),
{
    s.to_lowercase()
}

/// Whether `c` is alphabetic or numeric, as `char::is_alphanumeric` decides.
pub uninterp spec fn alphanumeric(c: char) -> bool;

/// Relies on `char::is_alphanumeric`: a property of the character alone.
#[verifier::external_body]
fn is_alphanumeric(c: char) -> (r: bool)
    ensures
        r == alphanumeric(c),
{
    c.is_alphanumeric()
}

/// Whether a text ends in `.pdf`.
pub open spec fn ends_with_pdf(s: Seq<char>) -> bool {
    s.len() >= 4 && s.subrange(s.len() - 4, s.len() as int) == ".pdf"@
}

/// Whether an already lower-cased file name ends in `.pdf`.
pub fn is_pdf_name(lowered: &str) -> (r: bool)
    ensures
        r == ends_with_pdf(lowered@),
{
    proof {
        reveal_strlit(".pdf");
    }
    let n = lowered.unicode_len();
    if n < 4 {
        return false;
    }
    let r = lowered.get_char(n - 4) == '.' && lowered.get_char(n - 3) == 'p' && lowered.get_char(n - 2)
        == 'd' && lowered.get_char(n - 1) == 'f';
    proof {
        let t = lowered@.subrange(n - 4, n as int);
        if r {
            assert(t =~= ".pdf"@);
        } else if t == ".pdf"@ {
            assert(t[0] == '.' && t[1] == 'p' && t[2] == 'd' && t[3] == 'f');
        }
    }
    r
}

/// Checks an upload before it is stored: at most `MAX_FILE_SIZE` bytes, and a
/// file name ending in `.pdf` in any letter case.
pub fn validate_upload(file_name: &str, size: usize) -> (r: Result<(), ErrorResponse>)
    ensures
        size > MAX_FILE_SIZE ==> r is Err && r->Err_0.error@ == "File size exceeds 50MB limit"@,
        size <= MAX_FILE_SIZE && !ends_with_pdf(lowercase_of(file_name@)) ==> r is Err
            && r->Err_0.error@ == "Only PDF files are supported"@,
        size <= MAX_FILE_SIZE && ends_with_pdf(lowercase_of(file_name@)) ==> r is Ok,
{
    if size > MAX_FILE_SIZE {
        return Err(ErrorResponse { error: String::from_str("File size exceeds 50MB limit") });
    }
    let lowered = to_lowercase(file_name);
    if !is_pdf_name(lowered.as_str()) {
        return Err(ErrorResponse { error: String::from_str("Only PDF files are supported") });
    }
    Ok(())
}

/// A character as it stands in a safe file name, given whether it is
/// alphanumeric: kept if alphanumeric, `.` or `-`, else `_`.
pub open spec fn safe_char_of(c: char, alnum: bool) -> char {
    if alnum || c == '.' || c == '-' { c } else { '_' }
}

/// The character that stands for `c` in a safe file name; `alnum` tells
/// whether `c` is alphanumeric.
pub fn safe_char(c: char, alnum: bool) -> (r: char)
    ensures
        r == safe_char_of(c, alnum),
{
    if alnum || c == '.' || c == '-' { c } else { '_' }
}

/// A file name with every character that is neither alphanumeric nor `.`
/// nor `-` replaced by `_`.
pub open spec fn sanitized(s: Seq<char>) -> Seq<char> {
    Seq::new(s.len(), |i: int| safe_char_of(s[i], alphanumeric(s[i])))
}

/// Makes a file name safe for a storage path.
pub fn sanitize_file_name(name: &str) -> (r: String)
    ensures
        r@ == sanitized(name@),
{
    let n = name.unicode_len();
    let mut out = String::new();
    let mut i: usize = 0;
    while i < n
        invariant
            n == name@.len(),
            i <= n,
            out@ == sanitized(name@).take(i as int),
        decreases n - i,
    {
        let c = name.get_char(i);
        let sc = safe_char(c, is_alphanumeric(c));
        if sc == c {
            let piece = name.substring_char(i, i + 1);
            assert(piece@ =~= seq![c]);
            out.append(piece);
        } else {
            proof {
                reveal_strlit("_");
                assert("_"@ =~= seq!['_']);
            }
            out.append("_");
        }
        assert(out@ =~= sanitized(name@).take(i + 1));
        i = i + 1;
    }
    assert(out@ =~= sanitized(name@));
    out
}

/// The storage path of an upload: `<session>/<timestamp>-<sanitized name>`.
pub open spec fn storage_path_of(session: Seq<char>, timestamp: nat, file_name: Seq<char>) -> Seq<char> {
    session + "/"@ + decimal(timestamp) + "-"@ + sanitized(file_name)
}

/// Builds the storage path of an upload.
pub fn storage_path(session: &str, timestamp: u64, file_name: &str) -> (r: String)
    ensures
        r@ == storage_path_of(session@, timestamp as nat, file_name@),
{
    let mut p = String::from_str(session);
    p.append("/");
    let ts = decimal_string(timestamp);
    p.append(ts.as_str());
    p.append("-");
    let safe = sanitize_file_name(file_name);
    p.append(safe.as_str());
    p
}

/// The receipt of an accepted upload, reporting the document's current status.
pub fn upload_receipt(doc: &Document) -> (r: UploadResponse)
    ensures
        r.id@ == decimal(doc.id as nat),
        r.file_name@ == doc.file_name@,
        r.file_path@ == doc.file_path@,
        r.extraction_status@ == status_name(doc.status),
        r.message@ == "File uploaded successfully. Text extraction in progress."@,
{
    UploadResponse {
        id: decimal_string(doc.id),
        file_name: doc.file_name.clone(),
        file_path: doc.file_path.clone(),
        extraction_status: String::from_str(doc.status.as_str()),
        message: String::from_str("File uploaded successfully. Text extraction in progress."),
    }
}

} // verus!
