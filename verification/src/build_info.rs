//! Build identity helpers.
//!
//! The build channel and build id are compile-time settings of the binary;
//! callers pass their raw values (as read from the build environment) and
//! these functions decide what they mean.
use vstd::prelude::*;

use crate::text::{self, chars_of, eq_lit, push_all, push_str, string_of, trim_chars};

verus! {

/// The crate version every channel is based on.
pub const BASE_VERSION: &'static str = "0.7.5";

pub open spec fn opt_view(v: Option<&str>) -> Option<Seq<char>> {
    match v {
        Some(s) => Some(s@),
        None => None,
    }
}

pub open spec fn opt_string_view(v: Option<String>) -> Option<Seq<char>> {
    match v {
        Some(s) => Some(s@),
        None => None,
    }
}

/// A setting counts only when something other than whitespace is left
/// after trimming; it is then the trimmed text.
pub open spec fn non_empty_spec(v: Option<Seq<char>>) -> Option<Seq<char>> {
    match v {
        Some(s) => if text::trim(s).len() == 0 {
            None
        } else {
            Some(text::trim(s))
        },
        None => None,
    }
}

pub open spec fn channel_spec(raw: Option<Seq<char>>) -> Seq<char> {
    match non_empty_spec(raw) {
        Some(c) => c,
        None => "stable"@,
    }
}

pub open spec fn version_spec(raw_channel: Option<Seq<char>>, raw_build: Option<Seq<char>>) -> Seq<
    char,
> {
    let ch = channel_spec(raw_channel);
    if ch == "stable"@ {
        BASE_VERSION@
    } else {
        match non_empty_spec(raw_build) {
            Some(id) => BASE_VERSION@ + "-"@ + ch + "."@ + id,
            None => BASE_VERSION@ + "-"@ + ch,
        }
    }
}

pub fn non_empty(value: Option<&str>) -> (r: Option<String>)
    ensures
        opt_string_view(r) == non_empty_spec(opt_view(value)),
{
    match value {
        Some(v) => {
            let t = trim_chars(&chars_of(v));
            if t.len() == 0 {
                None
            } else {
                Some(string_of(&t))
            }
        },
        None => None,
    }
}

/// The release channel: the trimmed raw setting, `stable` when unset or blank.
pub fn channel(raw: Option<&str>) -> (r: String)
    ensures
        r@ == channel_spec(opt_view(raw)),
{
    match non_empty(raw) {
        Some(c) => c,
        None => string_of(&chars_of("stable")),
    }
}

/// The build id, when one is set.
pub fn build_id(raw: Option<&str>) -> (r: Option<String>)
    ensures
        opt_string_view(r) == non_empty_spec(opt_view(raw)),
{
    non_empty(raw)
}

/// `BASE_VERSION` on the stable channel; otherwise
/// `BASE_VERSION-channel` followed by `.build_id` when a build id is set.
pub fn version(raw_channel: Option<&str>, raw_build: Option<&str>) -> (r: String)
    ensures
        r@ == version_spec(opt_view(raw_channel), opt_view(raw_build)),
{
    let ch = chars_of(channel(raw_channel).as_str());
    if eq_lit(&ch, "stable") {
        return string_of(&chars_of(BASE_VERSION));
    }
    let mut out = chars_of(BASE_VERSION);
    push_str(&mut out, "-");
    push_all(&mut out, &ch);
    match build_id(raw_build) {
        Some(id) => {
            push_str(&mut out, ".");
            push_str(&mut out, id.as_str());
        },
        None => {},
    }
    string_of(&out)
}

pub fn is_preview(raw: Option<&str>) -> (r: bool)
    ensures
        r == (channel_spec(opt_view(raw)) == "preview"@),
{
    let ch = chars_of(channel(raw).as_str());
    eq_lit(&ch, "preview")
}

pub fn is_dev(raw: Option<&str>) -> (r: bool)
    ensures
        r == (channel_spec(opt_view(raw)) == "dev"@),
{
    let ch = chars_of(channel(raw).as_str());
    eq_lit(&ch, "dev")
}

/// Any non-stable build (preview or dev).
pub fn is_prerelease(raw: Option<&str>) -> (r: bool)
    ensures
        r == (channel_spec(opt_view(raw)) != "stable"@),
{
    let ch = chars_of(channel(raw).as_str());
    !eq_lit(&ch, "stable")
}

/// A build without a channel, or on the stable channel, reports exactly
/// the crate version, whatever build id it carries.
pub proof fn law_stable_version_is_base(raw_build: Option<Seq<char>>)
    ensures
        version_spec(None, raw_build) == BASE_VERSION@,
        version_spec(Some("stable"@), raw_build) == BASE_VERSION@,
{
    reveal_strlit("stable");
    assert(text::trim("stable"@) =~= "stable"@);
}

} // verus!
