//! Which files the picture tool accepts: those whose extension belongs to
//! an image format that the `image` crate can decode.

use vstd::prelude::*;

verus! {

/// The `image` crate's enumeration of image formats.
#[verifier::external_type_specification]
#[verifier::external_body]
pub struct ExImageFormat(image::ImageFormat);

/// What `image::ImageFormat::can_read` says of a format.
pub uninterp spec fn format_is_readable(format: image::ImageFormat) -> bool;

/// The file extensions that `image::ImageFormat::extensions_str` lists for
/// a format, in its order.
pub uninterp spec fn format_extensions(format: image::ImageFormat) -> Seq<Seq<char>>;

/// Calls `image::ImageFormat::all`, which returns all image formats, and
/// collects what it yields: every format is in the list. Nothing is claimed
/// of the order, nor of how often a format occurs.
#[verifier::external_body]
fn all_formats() -> (r: Vec<image::ImageFormat>)
    ensures
        forall|format: image::ImageFormat| #[trigger] r@.contains(format),
{
    image::ImageFormat::all().collect()
}

/// Calls `image::ImageFormat::can_read`: whether the crate has a decoder
/// for the format. The answer depends on the format alone.
#[verifier::external_body]
fn can_read(format: &image::ImageFormat) -> (r: bool)
    ensures
        r == format_is_readable(*format),
{
    format.can_read()
}

/// Calls `image::ImageFormat::extensions_str` and copies the extensions it
/// lists into owned strings, one for one. The list depends on the format
/// alone.
#[verifier::external_body]
fn extensions_of(format: &image::ImageFormat) -> (r: Vec<String>)
    ensures
        r@.len() == format_extensions(*format).len(),
        forall|i: int| 0 <= i < r@.len() ==> (#[trigger] r@[i])@ == format_extensions(*format)[i],
{
    format.extensions_str().iter().map(|e| e.to_string()).collect()
}

/// Whether `extension` is listed for the format.
pub open spec fn format_has_extension(format: image::ImageFormat, extension: Seq<char>) -> bool {
    format_extensions(format).contains(extension)
}

/// Whether some image format can be decoded and lists `extension`.
pub open spec fn is_readable_extension(extension: Seq<char>) -> bool {
    exists|format: image::ImageFormat|
        format_is_readable(format) && #[trigger] format_has_extension(format, extension)
}

/// Whether one of `formats` can be decoded and lists `extension`.
pub open spec fn supported_among(formats: Seq<image::ImageFormat>, extension: Seq<char>) -> bool {
    exists|i: int|
        0 <= i < formats.len() && format_is_readable(#[trigger] formats[i]) && format_has_extension(
            formats[i],
            extension,
        )
}

fn has_extension(format: &image::ImageFormat, extension: &String) -> (r: bool)
    ensures
        r == format_has_extension(*format, extension@),
{
    let listed = extensions_of(format);
    let n = listed.len();
    let mut i: usize = 0;
    while i < n
        invariant
            n == listed@.len(),
            i <= n,
            n == format_extensions(*format).len(),
            forall|j: int| 0 <= j < n ==> (#[trigger] listed@[j])@ == format_extensions(*format)[j],
            forall|j: int| 0 <= j < i ==> format_extensions(*format)[j] != extension@,
        decreases n - i,
    {
        if listed[i] == *extension {
            assert(format_extensions(*format)[i as int] == extension@);
            return true;
        }
        i = i + 1;
    }
    false
}

/// Whether `extension` belongs to one of the given formats that can be
/// decoded. The comparison is exact: case matters.
pub fn extension_is_supported_among(formats: &Vec<image::ImageFormat>, extension: &str) -> (r: bool)
    ensures
        r == supported_among(formats@, extension@),
{
    let wanted = extension.to_owned();
    let n = formats.len();
    let mut i: usize = 0;
    while i < n
        invariant
            n == formats@.len(),
            i <= n,
            wanted@ == extension@,
            forall|j: int|
                0 <= j < i ==> !(format_is_readable(#[trigger] formats@[j]) && format_has_extension(
                    formats@[j],
                    extension@,
                )),
        decreases n - i,
    {
        if can_read(&formats[i]) {
            if has_extension(&formats[i], &wanted) {
                return true;
            }
        }
        i = i + 1;
    }
    false
}

/// Whether one of the first `n` of `formats` can be decoded and lists
/// `extension`.
pub open spec fn supported_before(formats: Seq<image::ImageFormat>, n: int, extension: Seq<char>)
    -> bool {
    exists|i: int|
        0 <= i < n && format_is_readable(#[trigger] formats[i]) && format_has_extension(
            formats[i],
            extension,
        )
}

/// Whether `extension` is one of `listed`.
pub open spec fn lists(listed: Seq<String>, extension: Seq<char>) -> bool {
    exists|k: int| 0 <= k < listed.len() && (#[trigger] listed[k])@ == extension
}

/// The extensions of those of `formats` that can be decoded, format by
/// format: what a file dialog offers.
pub fn readable_extensions_among(formats: &Vec<image::ImageFormat>) -> (r: Vec<String>)
    ensures
        forall|e: Seq<char>| lists(r@, e) <==> supported_among(formats@, e),
{
    let mut found: Vec<String> = Vec::new();
    let n = formats.len();
    let mut i: usize = 0;
    while i < n
        invariant
            n == formats@.len(),
            i <= n,
            forall|e: Seq<char>| lists(found@, e) <==> supported_before(formats@, i as int, e),
        decreases n - i,
    {
        let ghost before = found@;
        if can_read(&formats[i]) {
            let mut listed = extensions_of(&formats[i]);
            let ghost added = listed@;
            found.append(&mut listed);
            proof {
                let format = formats@[i as int];
                assert forall|e: Seq<char>| lists(found@, e) <==> supported_before(
                    formats@,
                    i + 1,
                    e,
                ) by {
                    if lists(found@, e) {
                        let k = choose|k: int| 0 <= k < found@.len() && (#[trigger] found@[k])@ == e;
                        if k < before.len() {
                            assert(before[k]@ == e);
                            assert(lists(before, e));
                            let j = choose|j: int|
                                0 <= j < i && format_is_readable(#[trigger] formats@[j])
                                    && format_has_extension(formats@[j], e);
                            assert(format_has_extension(formats@[j], e));
                        } else {
                            assert(added[k - before.len()]@ == e);
                            assert(format_extensions(format)[k - before.len()] == e);
                            assert(format_has_extension(formats@[i as int], e));
                        }
                    }
                    if supported_before(formats@, i + 1, e) {
                        let j = choose|j: int|
                            0 <= j < i + 1 && format_is_readable(#[trigger] formats@[j])
                                && format_has_extension(formats@[j], e);
                        if j < i {
                            assert(format_has_extension(formats@[j], e));
                            assert(supported_before(formats@, i as int, e));
                            assert(lists(before, e));
                            let k = choose|k: int|
                                0 <= k < before.len() && (#[trigger] before[k])@ == e;
                            assert(found@[k]@ == e);
                        } else {
                            let m = choose|m: int|
                                0 <= m < format_extensions(format).len() && format_extensions(
                                    format,
                                )[m] == e;
                            assert(added[m]@ == e);
                            assert(found@[before.len() + m]@ == e);
                        }
                    }
                }
            }
        } else {
            proof {
                assert forall|e: Seq<char>| lists(found@, e) <==> supported_before(
                    formats@,
                    i + 1,
                    e,
                ) by {
                    if supported_before(formats@, i + 1, e) {
                        let j = choose|j: int|
                            0 <= j < i + 1 && format_is_readable(#[trigger] formats@[j])
                                && format_has_extension(formats@[j], e);
                        assert(format_has_extension(formats@[j], e));
                        assert(supported_before(formats@, i as int, e));
                    }
                    if supported_before(formats@, i as int, e) {
                        let j = choose|j: int|
                            0 <= j < i && format_is_readable(#[trigger] formats@[j])
                                && format_has_extension(formats@[j], e);
                        assert(format_has_extension(formats@[j], e));
                    }
                }
            }
        }
        i = i + 1;
    }
    proof {
        assert forall|e: Seq<char>| lists(found@, e) <==> supported_among(formats@, e) by {
            if supported_before(formats@, n as int, e) {
                let j = choose|j: int|
                    0 <= j < n && format_is_readable(#[trigger] formats@[j]) && format_has_extension(
                        formats@[j],
                        e,
                    );
                assert(format_has_extension(formats@[j], e));
            }
            if supported_among(formats@, e) {
                let j = choose|j: int|
                    0 <= j < formats@.len() && format_is_readable(#[trigger] formats@[j])
                        && format_has_extension(formats@[j], e);
                assert(format_has_extension(formats@[j], e));
            }
        }
    }
    found
}

/// Among all formats, one can be decoded and lists `extension` exactly if
/// some format does.
proof fn lemma_all_formats_decide(formats: Seq<image::ImageFormat>, extension: Seq<char>)
    requires
        forall|format: image::ImageFormat| #[trigger] formats.contains(format),
    ensures
        supported_among(formats, extension) <==> is_readable_extension(extension),
{
    if supported_among(formats, extension) {
        let i = choose|i: int|
            0 <= i < formats.len() && format_is_readable(#[trigger] formats[i])
                && format_has_extension(formats[i], extension);
        assert(format_has_extension(formats[i], extension));
    }
    if is_readable_extension(extension) {
        let format = choose|format: image::ImageFormat|
            format_is_readable(format) && #[trigger] format_has_extension(format, extension);
        assert(formats.contains(format));
        let i = choose|i: int| 0 <= i < formats.len() && formats[i] == format;
        assert(format_is_readable(formats[i]) && format_has_extension(formats[i], extension));
    }
}

/// The extensions of all image formats that can be decoded, format by
/// format: an extension is listed exactly if a format that can be decoded
/// lists it.
pub fn readable_extensions() -> (r: Vec<String>)
    ensures
        forall|e: Seq<char>| lists(r@, e) <==> is_readable_extension(e),
{
    let formats = all_formats();
    let r = readable_extensions_among(&formats);
    proof {
        assert forall|e: Seq<char>| lists(r@, e) <==> is_readable_extension(e) by {
            lemma_all_formats_decide(formats@, e);
        }
    }
    r
}

/// Whether `extension` belongs to an image format that can be decoded,
/// among all that the `image` crate knows. The comparison is exact: case
/// matters.
pub fn extension_is_supported(extension: &str) -> (r: bool)
    ensures
        r == is_readable_extension(extension@),
{
    let formats = all_formats();
    let r = extension_is_supported_among(&formats, extension);
    proof {
        lemma_all_formats_decide(formats@, extension@);
    }
    r
}

} // verus!
