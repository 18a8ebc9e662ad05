use vstd::prelude::*;
use vstd::seq_lib::*;

use crate::errors::AppError;
use crate::text::spec_lower;

verus! {

/// The extension taken when a separator does not occur.
pub const FALLBACK_EXTENSION: &'static str = "xxx";

/// Message for an upload whose extension is not in the allowlist.
pub const MSG_EXTENSION_UNSUPPORTED: &'static str = "File extension not supported";

/// The extension derived from a name: what follows the first `sep`, or
/// `xxx` when `sep` does not occur.
pub open spec fn spec_extension(s: Seq<char>, sep: char) -> Seq<char> {
    match s.index_of_first(sep) {
        Some(i) => s.subrange(i + 1, s.len() as int),
        None => FALLBACK_EXTENSION@,
    }
}

/// What follows the first occurrence of `sep`; `xxx` when `sep` does
/// not occur.
pub fn extension_from(s: &str, sep: char) -> (e: String)
    ensures
        e@ == spec_extension(s@, sep),
{
    let len = s.unicode_len();
    let mut i: usize = 0;
    while i < len
        invariant
            i <= len,
            len == s@.len(),
            forall|j: int| 0 <= j < i ==> s@[j] != sep,
        decreases len - i,
    {
        if s.get_char(i) == sep {
            proof {
                s@.index_of_first_ensures(sep);
                let found = s@.index_of_first(sep)->0;
                assert(s@[i as int] == sep);
                assert(found == i);
            }
            return s.substring_char(i + 1, len).to_owned();
        }
        i = i + 1;
    }
    proof {
        s@.index_of_first_ensures(sep);
        if s@.index_of_first(sep) is Some {
            let found = s@.index_of_first(sep)->0;
            assert(s@[found] != sep);
        }
    }
    String::from_str(FALLBACK_EXTENSION)
}

/// Whether an extension is in the allowlist: some entry, lower-cased,
/// is exactly the extension.
pub open spec fn spec_extension_allowed(allowed: Seq<String>, e: Seq<char>) -> bool {
    exists|i: int| 0 <= i < allowed.len() && spec_lower(allowed[i]@) == e
}

/// Whether some entry of the allowlist, lower-cased, equals `ext`.
pub fn extension_allowed(ext: &str, allowed: &Vec<String>) -> (r: bool)
    ensures
        r == spec_extension_allowed(allowed@, ext@),
{
    let ext_string = String::from_str(ext);
    let mut i: usize = 0;
    while i < allowed.len()
        invariant
            i <= allowed@.len(),
            ext_string@ == ext@,
            forall|j: int| 0 <= j < i ==> spec_lower(allowed@[j]@) != ext@,
        decreases allowed@.len() - i,
    {
        let lowered = crate::text::ascii_lowercase(allowed[i].as_str());
        if lowered == ext_string {
            proof {
                assert(spec_lower(allowed@[i as int]@) == ext@);
            }
            return true;
        }
        i = i + 1;
    }
    false
}

/// Derive the extension from a declared content-type (what follows its
/// `/`) and hold it against the allowlist; an extension not in the
/// allowlist is a bad request.
pub fn check_extension(content_type: &str, allowed: &Vec<String>) -> (r: Result<String, AppError>)
    ensures
        r is Ok <==> spec_extension_allowed(allowed@, spec_extension(content_type@, '/')),
        r matches Ok(e) ==> e@ == spec_extension(content_type@, '/'),
        r matches Err(e) ==> (e matches AppError::BadRequest(m) && m@
            == MSG_EXTENSION_UNSUPPORTED@),
{
    let ext = extension_from(content_type, '/');
    if extension_allowed(ext.as_str(), allowed) {
        Ok(ext)
    } else {
        Err(AppError::BadRequest(String::from_str(MSG_EXTENSION_UNSUPPORTED)))
    }
}

/// Relies on `rand::random`: a random 32-bit value. Nothing is promised
/// of it.
#[verifier::external_body]
fn random_u32() -> u32 {
    rand::random::<u32>()
}

/// The name an upload is stored under: the caller's choice when one is
/// given, else a random decimal name. A fresh random name is drawn on
/// every call, so a collision is retried with a new name.
pub fn choose_filename(filename: Option<String>) -> (n: String)
    ensures
        filename matches Some(f) ==> n@ == f@,
        filename is None ==> (exists|k: u32| n@ == crate::text::spec_decimal(k as int)),
{
    match filename {
        Some(name) => name,
        None => {
            let drawn = random_u32();
            let name = crate::text::u32_decimal(drawn);
            proof {
                assert(name@ == crate::text::spec_decimal(drawn as int));
            }
            name
        },
    }
}

/// The path `<prefix>/<name>.<ext>`: the disk path of an upload under
/// the save base path, and its public URL under the uploads endpoint.
pub fn joined_path(prefix: &str, name: &str, ext: &str) -> (p: String)
    ensures
        p@ == prefix@ + "/"@ + name@ + "."@ + ext@,
{
    let mut p = String::from_str(prefix);
    p.append("/");
    p.append(name);
    p.append(".");
    p.append(ext);
    p
}

/// The name part of a public upload URL: what follows its last `/`.
pub open spec fn spec_basename(filename: Seq<char>) -> Seq<char>
    recommends
        filename.index_of_last('/') is Some,
{
    filename.subrange(filename.index_of_last('/')->0 + 1, filename.len() as int)
}

/// The disk path of a stored upload: the save base path joined with
/// what follows the last `/` of the public URL.
pub fn upload_disk_path(base: &str, filename: &str) -> (p: String)
    requires
        filename@.contains('/'),
    ensures
        p@ == base@ + "/"@ + spec_basename(filename@),
{
    let len = filename.unicode_len();
    let mut i: usize = len;
    while i > 0
        invariant
            i <= len,
            len == filename@.len(),
            forall|j: int| i <= j < len ==> filename@[j] != '/',
        decreases i,
    {
        if filename.get_char(i - 1) == '/' {
            proof {
                filename@.index_of_last_ensures('/');
                let found = filename@.index_of_last('/')->0;
                assert(filename@[i - 1] == '/');
                assert(found == i - 1);
            }
            let mut p = String::from_str(base);
            p.append("/");
            p.append(filename.substring_char(i, len));
            return p;
        }
        i = i - 1;
    }
    proof {
        let witness = choose|k: int| 0 <= k < filename@.len() && filename@[k] == '/';
        assert(filename@[witness] != '/');
    }
    String::from_str(base)
}

/// Whether an extension is served as an image.
pub open spec fn spec_is_image_ext(e: Seq<char>) -> bool {
    e == "jpg"@ || e == "jpeg"@ || e == "png"@ || e == "gif"@ || e == "webp"@
}

/// The content-type header an upload is served with: `image/<ext>` for
/// an image extension (what follows the first `.` of the name), nothing
/// otherwise.
pub fn image_content_type(id: &str) -> (r: Option<String>)
    ensures
        r is Some <==> spec_is_image_ext(spec_extension(id@, '.')),
        r matches Some(ct) ==> ct@ == "image/"@ + spec_extension(id@, '.'),
{
    let ext = extension_from(id, '.');
    let is_image = ext == String::from_str("jpg") || ext == String::from_str("jpeg") || ext
        == String::from_str("png") || ext == String::from_str("gif") || ext == String::from_str(
        "webp",
    );
    if is_image {
        let mut ct = String::from_str("image/");
        ct.append(ext.as_str());
        Some(ct)
    } else {
        None
    }
}

} // verus!
