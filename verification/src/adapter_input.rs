//! Raw values from the transports, brought into the form of the requests.

use vstd::prelude::*;
use crate::outside::{lowercase, to_lowercase};
use crate::text::{
    cat2, cat4, is_blank, opt_str, opt_text, push_text, text_eq, texts, trim, trimmed,
};
use crate::text_scan::{ascii_lowered, text_ascii_lower};
use crate::use_cases::{
    DumpModeRequest, LaunchTargetRequest, SyntaxExtensionScope, SyntaxExtensionScopeView,
    UseCaseError, UseCaseErrorKind, UseCaseErrorView,
};

verus! {

/// Trimmed value, absent where it is blank.
pub open spec fn normalized(value: Option<Seq<char>>) -> Option<Seq<char>> {
    match value {
        Some(v) => if is_blank(v) {
            None
        } else {
            Some(trim(v))
        },
        None => None,
    }
}

/// Trimmed value, absent where it is blank.
pub fn normalize_optional_string(value: Option<&str>) -> (r: Option<String>)
    ensures
        opt_text(r) == normalized(opt_str(value)),
{
    match value {
        Some(v) => {
            let t = trimmed(v);
            if t.as_str().is_empty() {
                None
            } else {
                Some(t)
            }
        },
        None => None,
    }
}

/// Failure of a request that is not in order.
pub open spec fn invalid(message: Seq<char>) -> UseCaseErrorView {
    UseCaseErrorView { kind: UseCaseErrorKind::Validation, message }
}

/// Trimmed value, refused where it is blank.
pub fn normalize_required_string(value: &str, field: &str) -> (r: Result<String, UseCaseError>)
    ensures
        match r {
            Ok(s) => !is_blank(value@) && s@ == trim(value@),
            Err(e) => is_blank(value@) && e@ == invalid(field@ + " must not be blank"@),
        },
{
    let t = trimmed(value);
    if t.as_str().is_empty() {
        let message = cat2(field, " must not be blank");
        return Err(UseCaseError::new(UseCaseErrorKind::Validation, message.as_str()));
    }
    Ok(t)
}

/// Dump mode that a word names, letters' case aside.
pub open spec fn dump_mode_named(word: Seq<char>) -> Option<DumpModeRequest> {
    let w = ascii_lowered(word);
    if w == "full"@ {
        Some(DumpModeRequest::Full)
    } else if w == "incremental"@ {
        Some(DumpModeRequest::Incremental)
    } else if w == "partial"@ {
        Some(DumpModeRequest::Partial)
    } else {
        None
    }
}

/// Dump mode from an optional word; a blank one stands for the default.
pub fn parse_optional_dump_mode(value: Option<&str>, default: DumpModeRequest) -> (r: Result<
    DumpModeRequest,
    UseCaseError,
>)
    ensures
        match normalized(opt_str(value)) {
            None => r == Ok::<DumpModeRequest, UseCaseError>(default),
            Some(word) => match r {
                Ok(mode) => dump_mode_named(word) == Some(mode),
                Err(e) => dump_mode_named(word) is None && e@ == invalid(
                    "unsupported dump mode: "@ + word,
                ),
            },
        },
{
    match normalize_optional_string(value) {
        None => Ok(default),
        Some(word) => {
            let w = text_ascii_lower(word.as_str());
            if text_eq(w.as_str(), "full") {
                Ok(DumpModeRequest::Full)
            } else if text_eq(w.as_str(), "incremental") {
                Ok(DumpModeRequest::Incremental)
            } else if text_eq(w.as_str(), "partial") {
                Ok(DumpModeRequest::Partial)
            } else {
                let message = cat2("unsupported dump mode: ", word.as_str());
                Err(UseCaseError::new(UseCaseErrorKind::Validation, message.as_str()))
            }
        },
    }
}

/// Client that a word in small letters names.
pub open spec fn launch_target_named(word: Seq<char>) -> Option<LaunchTargetRequest> {
    if word == "designer"@ || word == "configurator"@ || word == "1cv8"@ || word
        == "конфигуратор"@ {
        Some(LaunchTargetRequest::Designer)
    } else if word == "thin"@ || word == "thin-client"@ || word == "thin client"@ || word
        == "thin_client"@ || word == "tc"@ || word == "1cv8c"@ || word == "тонкий клиент"@ || word
        == "тонкий"@ {
        Some(LaunchTargetRequest::ThinClient)
    } else if word == "thick"@ || word == "thick-client"@ || word == "thick client"@ || word
        == "thick_client"@ || word == "толстый клиент"@ || word == "толстый"@ {
        Some(LaunchTargetRequest::ThickClient)
    } else {
        None
    }
}

/// Client that a word in small letters names.
pub fn launch_target_from_word(word: &str) -> (r: Option<LaunchTargetRequest>)
    ensures
        r == launch_target_named(word@),
{
    if text_eq(word, "designer") || text_eq(word, "configurator") || text_eq(word, "1cv8")
        || text_eq(word, "конфигуратор") {
        Some(LaunchTargetRequest::Designer)
    } else if text_eq(word, "thin") || text_eq(word, "thin-client") || text_eq(word, "thin client")
        || text_eq(word, "thin_client") || text_eq(word, "tc") || text_eq(word, "1cv8c") || text_eq(
        word,
        "тонкий клиент",
    ) || text_eq(word, "тонкий") {
        Some(LaunchTargetRequest::ThinClient)
    } else if text_eq(word, "thick") || text_eq(word, "thick-client") || text_eq(
        word,
        "thick client",
    ) || text_eq(word, "thick_client") || text_eq(word, "толстый клиент") || text_eq(
        word,
        "толстый",
    ) {
        Some(LaunchTargetRequest::ThickClient)
    } else {
        None
    }
}

/// Client that a value names, white space around it and letters' case aside.
pub fn parse_launch_target(value: &str, field: &str) -> (r: Result<
    LaunchTargetRequest,
    UseCaseError,
>)
    ensures
        match r {
            Ok(target) => launch_target_named(lowercase(trim(value@))) == Some(target),
            Err(e) => launch_target_named(lowercase(trim(value@))) is None && e@ == invalid(
                "unsupported launch "@ + field@ + ": "@ + trim(value@),
            ),
        },
{
    let t = trimmed(value);
    let word = to_lowercase(t.as_str());
    match launch_target_from_word(word.as_str()) {
        Some(target) => Ok(target),
        None => {
            let message = cat4("unsupported launch ", field, ": ", t.as_str());
            Err(UseCaseError::new(UseCaseErrorKind::Validation, message.as_str()))
        },
    }
}

/// Parts of the infobase, from an extension's name and the flag for all extensions. A name comes
/// before the flag; without a name all extensions are meant unless the flag is off.
pub open spec fn extension_scope(
    extension: Option<Seq<char>>,
    all: Option<bool>,
) -> SyntaxExtensionScopeView {
    match normalized(extension) {
        Some(name) => if all == Some(true) {
            SyntaxExtensionScopeView::SingleExtensionAndAll { name }
        } else {
            SyntaxExtensionScopeView::SingleExtension { name }
        },
        None => if all == Some(false) {
            SyntaxExtensionScopeView::MainConfiguration
        } else {
            SyntaxExtensionScopeView::AllExtensions
        },
    }
}

/// Parts of the infobase, from an extension's name and the flag for all extensions.
pub fn normalize_extension_scope(extension: Option<&str>, all_extensions: Option<bool>) -> (r:
    SyntaxExtensionScope)
    ensures
        r@ == extension_scope(opt_str(extension), all_extensions),
{
    match normalize_optional_string(extension) {
        Some(name) => if crate::use_cases::is_on(all_extensions) {
            SyntaxExtensionScope::SingleExtensionAndAll { name }
        } else {
            SyntaxExtensionScope::SingleExtension { name }
        },
        None => if crate::use_cases::is_not_off(all_extensions) {
            SyntaxExtensionScope::AllExtensions
        } else {
            SyntaxExtensionScope::MainConfiguration
        },
    }
}

/// Projects from an optional name: the one that is named, or none for all.
pub open spec fn edt_projects(name: Option<Seq<char>>) -> Seq<Seq<char>> {
    match normalized(name) {
        Some(n) => seq![n],
        None => Seq::empty(),
    }
}

/// Projects from an optional name.
pub fn normalize_edt_projects(name: Option<&str>) -> (r: Vec<String>)
    ensures
        texts(r@) == edt_projects(opt_str(name)),
{
    let mut out: Vec<String> = Vec::new();
    assert(texts(out@) =~= Seq::<Seq<char>>::empty());
    if let Some(n) = normalize_optional_string(name) {
        push_text(&mut out, n.as_str());
        assert(texts(out@) =~= seq![n@]);
    }
    out
}

/// Normalized values among the first `n`, blank ones left out.
pub open spec fn normalized_values(values: Seq<Seq<char>>, n: int) -> Seq<Seq<char>>
    decreases n,
{
    if n <= 0 {
        Seq::empty()
    } else if is_blank(values[n - 1]) {
        normalized_values(values, n - 1)
    } else {
        normalized_values(values, n - 1).push(trim(values[n - 1]))
    }
}

/// Normalized values, blank ones left out.
pub open spec fn normalized_list(values: Seq<Seq<char>>) -> Seq<Seq<char>> {
    normalized_values(values, values.len() as int)
}

/// Normalized values, blank ones left out.
pub fn normalize_string_list(values: &Vec<String>) -> (r: Vec<String>)
    ensures
        texts(r@) == normalized_list(texts(values@)),
{
    let mut out: Vec<String> = Vec::new();
    let mut i: usize = 0;
    assert(texts(out@) =~= Seq::<Seq<char>>::empty());
    while i < values.len()
        invariant
            i <= values.len(),
            texts(out@) == normalized_values(texts(values@), i as int),
        decreases values.len() - i,
    {
        assert(texts(values@)[i as int] == values@[i as int]@);
        if let Some(v) = normalize_optional_string(Some(values[i].as_str())) {
            push_text(&mut out, v.as_str());
        }
        i += 1;
    }
    out
}

/// The text can stand as one segment of a path: it is neither empty, `.` nor `..`, and holds no
/// separator.
pub open spec fn is_safe_segment(value: Seq<char>) -> bool {
    &&& value.len() > 0
    &&& value != "."@
    &&& value != ".."@
    &&& forall|i: int|
        0 <= i < value.len() ==> (#[trigger] value[i]) != '/' && value[i] != '\\' && value[i] != ':'
            && value[i] != '\0'
}

/// Whether the text can stand as one segment of a path.
pub fn is_safe_path_segment(value: &str) -> (r: bool)
    ensures
        r == is_safe_segment(value@),
{
    let chars = crate::text::chars_of(value);
    if chars.len() == 0 || text_eq(value, ".") || text_eq(value, "..") {
        return false;
    }
    let mut i: usize = 0;
    while i < chars.len()
        invariant
            i <= chars.len(),
            chars@ == value@,
            forall|k: int|
                0 <= k < i ==> (#[trigger] value@[k]) != '/' && value@[k] != '\\' && value@[k]
                    != ':' && value@[k] != '\0',
        decreases chars.len() - i,
    {
        let c = chars[i];
        assert(value@[i as int] == c);
        if c == '/' || c == '\\' || c == ':' || c == '\0' {
            return false;
        }
        i += 1;
    }
    true
}

} // verus!
