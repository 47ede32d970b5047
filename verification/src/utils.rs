//! Reference-media extraction: parsing data URLs and reading per-reference
//! generation parameters out of a loosely-typed parameter document.

use vstd::prelude::*;
use crate::params::{spec_as_str, spec_centi_or, spec_get, spec_opt_str, spec_str_or, ParamValue};
use crate::strutil::{
    find_char, matches_at, spec_starts_with, str_contains, str_starts_with, substring,
};

verus! {

/// `c` occurs in `s`.
pub open spec fn has_char(s: Seq<char>, c: char) -> bool {
    exists|i: int| 0 <= i < s.len() && s[i] == c
}

/// Position of the first occurrence of `c` in `s`; -1 when absent.
pub open spec fn spec_index_of(s: Seq<char>, c: char) -> int
    decreases s.len(),
{
    if s.len() == 0 {
        -1
    } else if s[0] == c {
        0
    } else if spec_index_of(s.drop_first(), c) == -1 {
        -1
    } else {
        1 + spec_index_of(s.drop_first(), c)
    }
}

/// A found first occurrence pins `spec_index_of`.
pub proof fn lemma_index_of_found(s: Seq<char>, c: char, i: int)
    requires
        0 <= i < s.len(),
        s[i] == c,
        forall|j: int| 0 <= j < i ==> s[j] != c,
    ensures
        spec_index_of(s, c) == i,
    decreases i,
{
    if i == 0 {
    } else {
        lemma_index_of_found(s.drop_first(), c, i - 1);
    }
}

/// An absent character pins `spec_index_of` to -1.
pub proof fn lemma_index_of_absent(s: Seq<char>, c: char)
    requires
        forall|j: int| 0 <= j < s.len() ==> s[j] != c,
    ensures
        spec_index_of(s, c) == -1,
    decreases s.len(),
{
    if s.len() > 0 {
        lemma_index_of_absent(s.drop_first(), c);
    }
}

/// `s` with every leading repetition of `p` removed.
pub open spec fn spec_trim_prefix_all(s: Seq<char>, p: Seq<char>) -> Seq<char>
    decreases s.len(),
{
    if p.len() > 0 && spec_starts_with(s, p) {
        spec_trim_prefix_all(s.skip(p.len() as int), p)
    } else {
        s
    }
}

/// The metadata segment of a data URL: everything before the first comma.
pub open spec fn spec_data_url_metadata(s: Seq<char>) -> Seq<char> {
    s.subrange(0, spec_index_of(s, ','))
}

/// The payload segment of a data URL: everything after the first comma.
pub open spec fn spec_data_url_payload(s: Seq<char>) -> Seq<char> {
    s.subrange(spec_index_of(s, ',') + 1, s.len() as int)
}

/// The MIME type of a data URL: the metadata with its `data:` prefix
/// removed, cut at the first semicolon; `image/png` when nothing stands
/// there.
pub open spec fn spec_data_url_mime(s: Seq<char>) -> Seq<char> {
    let rest = spec_trim_prefix_all(spec_data_url_metadata(s), "data:"@);
    let mime = (if has_char(rest, ';') {
        rest.subrange(0, spec_index_of(rest, ';'))
    } else {
        rest
    });
    if mime.len() == 0 {
        "image/png"@
    } else {
        mime
    }
}

/// A well-formed base64 data URL: `data:` prefix, a comma separating the
/// metadata from the payload, and a `base64` flag in the metadata.
pub open spec fn spec_data_url_ok(s: Seq<char>) -> bool {
    &&& spec_starts_with(s, "data:"@)
    &&& has_char(s, ',')
    &&& crate::strutil::spec_contains(spec_data_url_metadata(s), "base64"@)
}

/// Whether a `data:` prefix stands at offset `at` of `s`.
fn prefix_matches_at(s: &str, at: usize) -> (r: bool)
    requires
        at <= s@.len(),
    ensures
        r == spec_starts_with(s@.skip(at as int), "data:"@),
{
    let slen = s.unicode_len();
    let plen = "data:".unicode_len();
    if plen > slen - at {
        return false;
    }
    let m = matches_at(s, at, "data:");
    proof {
        assert(s@.skip(at as int).subrange(0, plen as int) =~= s@.subrange(
            at as int,
            at + plen as int,
        ));
    }
    m
}

/// Splits a base64 data URL into its MIME type and its base64 payload.
///
/// The URL must start with `data:`, carry a comma separating the metadata
/// from the payload, and flag the payload as `base64` in the metadata; each
/// violated precondition yields its own error message. The MIME type is read
/// between the `data:` prefix and the first semicolon of the metadata,
/// defaulting to `image/png` when none stands there.
pub fn extract_base64_from_data_url(data_url: &str) -> (r: Result<(String, String), String>)
    ensures
        ({
            let s = data_url@;
            if !spec_starts_with(s, "data:"@) {
                r matches Err(e) && e@ == "Invalid data URL: must start with 'data:'"@
            } else if !has_char(s, ',') {
                r matches Err(e) && e@ == "Invalid data URL format: missing comma separator"@
            } else if !crate::strutil::spec_contains(spec_data_url_metadata(s), "base64"@) {
                r matches Err(e) && e@ == "Data URL is not base64 encoded"@
            } else {
                r matches Ok(p) && p.0@ == spec_data_url_mime(s) && p.1@ == spec_data_url_payload(
                    s,
                )
            }
        }),
{
    if !str_starts_with(data_url, "data:") {
        return Err(String::from_str("Invalid data URL: must start with 'data:'"));
    }
    let len = data_url.unicode_len();
    let comma = match find_char(data_url, ',') {
        Some(i) => i,
        None => {
            proof {
                lemma_index_of_absent(data_url@, ',');
            }
            return Err(String::from_str("Invalid data URL format: missing comma separator"));
        },
    };
    proof {
        lemma_index_of_found(data_url@, ',', comma as int);
    }
    let metadata = data_url.substring_char(0, comma);
    let payload = substring(data_url, comma + 1, len);

    if !str_contains(metadata, "base64") {
        return Err(String::from_str("Data URL is not base64 encoded"));
    }

    // Strip every leading `data:` repetition from the metadata.
    let plen = "data:".unicode_len();
    let mlen = metadata.unicode_len();
    let mut start: usize = 0;
    proof {
        reveal_strlit("data:");
        assert(metadata@.skip(0) =~= metadata@);
    }
    while prefix_matches_at(metadata, start)
        invariant
            plen == "data:"@.len(),
            mlen == metadata@.len(),
            start <= mlen,
            plen > 0,
            spec_trim_prefix_all(metadata@, "data:"@) == spec_trim_prefix_all(
                metadata@.skip(start as int),
                "data:"@,
            ),
        decreases mlen - start,
    {
        proof {
            let cur = metadata@.skip(start as int);
            assert(cur.skip(plen as int) =~= metadata@.skip(start + plen));
        }
        start += plen;
    }
    let rest = metadata.substring_char(start, mlen);
    let mime = match find_char(rest, ';') {
        Some(k) => {
            proof {
                lemma_index_of_found(rest@, ';', k as int);
            }
            substring(rest, 0, k)
        },
        None => {
            proof {
                lemma_index_of_absent(rest@, ';');
            }
            substring(rest, 0, mlen - start)
        },
    };
    let mime = if mime.as_str().is_empty() {
        String::from_str("image/png")
    } else {
        mime
    };
    Ok((mime, payload))
}

/// The data URL carried by the `reference_image` field of a parameter
/// document, when one is there.
pub open spec fn spec_ref_image_url(params: ParamValue) -> Option<Seq<char>> {
    match spec_get(params, "reference_image"@) {
        Some(ri) => match spec_get(ri, "data"@) {
            Some(d) => spec_as_str(d),
            None => None,
        },
        None => None,
    }
}

/// Reads the `reference_image` field of a parameter document and splits its
/// data URL. Absence or a malformed URL yields `None`: a missing reference
/// image is a normal request shape, never an error.
pub fn extract_reference_image(parameters: &ParamValue) -> (r: Option<(String, String)>)
    ensures
        match spec_ref_image_url(*parameters) {
            Some(u) => if spec_data_url_ok(u) {
                r matches Some(p) && p.0@ == spec_data_url_mime(u) && p.1@
                    == spec_data_url_payload(u)
            } else {
                r is None
            },
            None => r is None,
        },
{
    let ri = match parameters.get("reference_image") {
        Some(ri) => ri,
        None => {
            return None;
        },
    };
    let data = match ri.get("data") {
        Some(d) => d,
        None => {
            return None;
        },
    };
    let url = match data.as_str() {
        Some(u) => u,
        None => {
            return None;
        },
    };
    match extract_base64_from_data_url(url.as_str()) {
        Ok(p) => Some(p),
        Err(_) => None,
    }
}

/// The reference split of one entry of a `reference_images` array: its
/// `data` field parsed as a base64 data URL.
pub open spec fn spec_item_ref(item: ParamValue) -> Option<(Seq<char>, Seq<char>)> {
    match spec_get(item, "data"@) {
        Some(d) => match spec_as_str(d) {
            Some(u) => if spec_data_url_ok(u) {
                Some((spec_data_url_mime(u), spec_data_url_payload(u)))
            } else {
                None
            },
            None => None,
        },
        None => None,
    }
}

/// The well-formed references among `items`, in order.
pub open spec fn spec_ref_list(items: Seq<ParamValue>) -> Seq<(Seq<char>, Seq<char>)>
    decreases items.len(),
{
    if items.len() == 0 {
        Seq::empty()
    } else {
        let front = spec_ref_list(items.drop_last());
        match spec_item_ref(items.last()) {
            Some(p) => front.push(p),
            None => front,
        }
    }
}

/// Reads every reference image out of a parameter document: the entries of
/// a `reference_images` array whose `data` fields parse as base64 data URLs,
/// or, when that array is absent, the singular `reference_image` field.
/// `None` when nothing well-formed is there.
pub fn extract_reference_images(parameters: &ParamValue) -> (r: Option<Vec<(String, String)>>)
    ensures
        match spec_get(*parameters, "reference_images"@) {
            Some(ParamValue::Arr(items)) => {
                let list = spec_ref_list(items@);
                if list.len() > 0 {
                    r matches Some(v) && v@.len() == list.len() && forall|k: int|
                        0 <= k < list.len() ==> (#[trigger] v@[k].0@, v@[k].1@) == list[k]
                } else {
                    r is None
                }
            },
            _ => match spec_ref_image_url(*parameters) {
                Some(u) => if spec_data_url_ok(u) {
                    r matches Some(v) && v@.len() == 1 && v@[0].0@ == spec_data_url_mime(u)
                        && v@[0].1@ == spec_data_url_payload(u)
                } else {
                    r is None
                },
                None => r is None,
            },
        },
{
    match parameters.get("reference_images") {
        Some(ParamValue::Arr(items)) => {
            let n = items.len();
            let mut out: Vec<(String, String)> = Vec::new();
            let mut i: usize = 0;
            while i < n
                invariant
                    n == items.len(),
                    i <= n,
                    out@.len() == spec_ref_list(items@.subrange(0, i as int)).len(),
                    forall|k: int|
                        0 <= k < out@.len() ==> (#[trigger] out@[k].0@, out@[k].1@)
                            == spec_ref_list(items@.subrange(0, i as int))[k],
                decreases n - i,
            {
                proof {
                    let pre = items@.subrange(0, i + 1);
                    assert(pre.drop_last() =~= items@.subrange(0, i as int));
                    assert(pre.last() == items@[i as int]);
                }
                let item = &items[i];
                let data = item.get("data");
                match data {
                    Some(d) => match d.as_str() {
                        Some(u) => match extract_base64_from_data_url(u.as_str()) {
                            Ok(p) => {
                                out.push(p);
                            },
                            Err(_) => {},
                        },
                        None => {},
                    },
                    None => {},
                }
                i += 1;
            }
            proof {
                assert(items@.subrange(0, n as int) =~= items@);
            }
            if out.len() > 0 {
                Some(out)
            } else {
                None
            }
        },
        _ => {
            match extract_reference_image(parameters) {
                Some(p) => {
                    let mut out: Vec<(String, String)> = Vec::new();
                    out.push(p);
                    Some(out)
                },
                None => None,
            }
        },
    }
}

/// Reads the auxiliary reference-image parameters, each with its own
/// default: strength (hundredths, default 75), denoising strength
/// (hundredths, default 70), resize mode (default `crop`), controlnet type
/// (default none) and controlnet strength (hundredths, default 100).
/// Defaults apply independently per missing field.
pub fn get_reference_image_params(parameters: &ParamValue) -> (r: (
    i64,
    i64,
    String,
    Option<String>,
    i64,
))
    ensures
        match spec_get(*parameters, "reference_image"@) {
            Some(ri) => {
                &&& r.0 == spec_centi_or(ri, "strength"@, 75)
                &&& r.1 == spec_centi_or(ri, "denoisingStrength"@, 70)
                &&& r.2@ == spec_str_or(ri, "resizeMode"@, "crop"@)
                &&& (match r.3 {
                    Some(t) => spec_opt_str(ri, "controlnetType"@) == Some(t@),
                    None => spec_opt_str(ri, "controlnetType"@) is None,
                })
                &&& r.4 == spec_centi_or(ri, "controlnetStrength"@, 100)
            },
            None => {
                &&& r.0 == 75
                &&& r.1 == 70
                &&& r.2@ == "crop"@
                &&& r.3 is None
                &&& r.4 == 100
            },
        },
{
    let ri = match parameters.get("reference_image") {
        Some(ri) => ri,
        None => {
            return (75, 70, String::from_str("crop"), None, 100);
        },
    };
    let strength = ri.centi_or("strength", 75);
    let denoising_strength = ri.centi_or("denoisingStrength", 70);
    let resize_mode = ri.str_or("resizeMode", "crop");
    let controlnet_type = ri.opt_str("controlnetType");
    let controlnet_strength = ri.centi_or("controlnetStrength", 100);
    (strength, denoising_strength, resize_mode, controlnet_type, controlnet_strength)
}

} // verus!
