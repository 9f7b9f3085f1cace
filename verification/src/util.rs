use vstd::prelude::*;

use crate::constants::{APP_NAME, SCALE_MAX_PERCENT, SCALE_MIN_PERCENT};
use crate::error::{Error, ErrorKind};
use crate::text::{append_decimal, decimal, decimal_string};

verus! {

// ---------------------------------------------------------------------------
// Window titles and page information
// ---------------------------------------------------------------------------

/// The window title for a document title: `<title> — <app>`, or the
/// application name alone when there is no document title.
pub open spec fn title_text(title: Option<Seq<char>>) -> Seq<char> {
    match title {
        Some(t) => t + " \u{2014} "@ + APP_NAME@,
        None => APP_NAME@,
    }
}

/// Adds the application name to the title of the shown document.
pub fn patch_title(title: Option<&str>) -> (r: String)
    ensures
        r@ == title_text(
            match title {
                Some(t) => Some(t@),
                None => None,
            },
        ),
{
    match title {
        Some(t) => {
            let s = String::from_str(t);
            let s = s.concat(" \u{2014} ");
            s.concat(APP_NAME)
        },
        None => String::from_str(APP_NAME),
    }
}

/// Every window title ends with the application name, and a document
/// title comes first, ahead of the separator.
pub proof fn law_title_ends_with_app_name(title: Option<Seq<char>>)
    ensures
        title_text(title).len() >= APP_NAME@.len(),
        title_text(title).subrange(
            title_text(title).len() - APP_NAME@.len(),
            title_text(title).len() as int,
        ) == APP_NAME@,
        title matches Some(t) ==> title_text(title).subrange(0, t.len() as int) == t,
        title is None ==> title_text(title) == APP_NAME@,
{
    let text = title_text(title);
    assert(text.subrange(text.len() - APP_NAME@.len(), text.len() as int) =~= APP_NAME@);
    if let Some(t) = title {
        assert(text.subrange(0, t.len() as int) =~= t);
    }
}

/// A document's window title is exactly the document title, then a space,
/// an em dash and a space, then the application name `kurumi`; so two
/// documents with different titles get different window titles.
pub proof fn law_title_is_title_dash_app_name(t: Seq<char>, u: Seq<char>)
    ensures
        APP_NAME@ == seq!['k', 'u', 'r', 'u', 'm', 'i'],
        title_text(Some(t)).len() == t.len() + 3 + APP_NAME@.len(),
        title_text(Some(t)).subrange(0, t.len() as int) == t,
        title_text(Some(t)).subrange(t.len() as int, t.len() + 3int) == seq![' ', '\u{2014}', ' '],
        title_text(Some(t)).subrange(t.len() + 3int, title_text(Some(t)).len() as int) == APP_NAME@,
        title_text(Some(t)) == title_text(Some(u)) ==> t == u,
{
    reveal_strlit("kurumi");
    reveal_strlit(" \u{2014} ");
    let text = title_text(Some(t));
    assert(text.subrange(0, t.len() as int) =~= t);
    assert(text.subrange(t.len() as int, t.len() + 3int) =~= seq![' ', '\u{2014}', ' ']);
    assert(text.subrange(t.len() + 3int, text.len() as int) =~= APP_NAME@);
    if text == title_text(Some(u)) {
        let other = title_text(Some(u));
        assert(u.len() == t.len());
        assert(other.subrange(0, u.len() as int) =~= u);
    }
}

/// `<cur>/<total>`, both in decimal.
pub fn _page_info(cur: i32, total: i32) -> (r: String)
    ensures
        r@ == decimal(cur as int) + "/"@ + decimal(total as int),
{
    let mut s = decimal_string(cur);
    s.append("/");
    append_decimal(&mut s, total);
    s
}

// ---------------------------------------------------------------------------
// Zoom status
// ---------------------------------------------------------------------------

/// How the page fits the viewport after a zoom, with the zoom (in whole
/// percent) that makes it fit.
#[derive(Debug, Clone, Copy, PartialEq, Eq, Structural)]
pub enum PageFitKind {
    /// The whole page fits at this zoom.
    Page(i32),
    /// The page width fits at this zoom.
    Width(i32),
    /// Neither the page nor its width fits exactly.
    NoFit,
}

/// The status tags shown for a zoom of `rounded` percent and a fit.
pub open spec fn scale_tags(rounded: int, page_fit: PageFitKind) -> Seq<Seq<char>> {
    let limit: Seq<Seq<char>> = if rounded >= SCALE_MAX_PERCENT {
        seq!["max"@]
    } else if rounded <= SCALE_MIN_PERCENT {
        seq!["min"@]
    } else {
        seq![]
    };
    match page_fit {
        PageFitKind::Width(_) => limit.push("fit width"@),
        PageFitKind::Page(_) => limit.push("fit page"@),
        PageFitKind::NoFit => limit,
    }
}

/// The items of `items`, separated by `sep`.
pub open spec fn join(items: Seq<Seq<char>>, sep: Seq<char>) -> Seq<char>
    decreases items.len(),
{
    if items.len() == 0 {
        seq![]
    } else if items.len() == 1 {
        items[0]
    } else {
        join(items.drop_last(), sep) + sep + items.last()
    }
}

/// The zoom that is shown: that of the fit, where there is one.
pub open spec fn shown_percent(rounded: int, page_fit: PageFitKind) -> int {
    match page_fit {
        PageFitKind::Width(p) => p as int,
        PageFitKind::Page(p) => p as int,
        PageFitKind::NoFit => rounded,
    }
}

/// The zoom status: empty at exactly 100 percent, otherwise
/// `Zoom: <percent>%` followed by ` (<tags>)` when there are tags.
pub open spec fn scale_status_text(rounded: int, page_fit: PageFitKind) -> Seq<char> {
    let tags = scale_tags(rounded, page_fit);
    let suffix = if tags.len() == 0 {
        Seq::<char>::empty()
    } else {
        " ("@ + join(tags, ","@) + ")"@
    };
    let shown = shown_percent(rounded, page_fit);
    if shown == 100 {
        Seq::<char>::empty()
    } else {
        "Zoom: "@ + decimal(shown) + "%"@ + suffix
    }
}

/// The zoom status line for a zoom of `rounded_factor` percent (rounded to
/// the nearest whole percent) and the fit that the zoom reached.
pub fn format_scale_status(rounded_factor: i32, page_fit: PageFitKind) -> (r: String)
    ensures
        r@ == scale_status_text(rounded_factor as int, page_fit),
{
    let limit: Option<&str> = if rounded_factor >= SCALE_MAX_PERCENT {
        Some("max")
    } else if rounded_factor <= SCALE_MIN_PERCENT {
        Some("min")
    } else {
        None
    };
    let (fit, shown): (Option<&str>, i32) = match page_fit {
        PageFitKind::Width(p) => (Some("fit width"), p),
        PageFitKind::Page(p) => (Some("fit page"), p),
        PageFitKind::NoFit => (None, rounded_factor),
    };
    let ghost tags = scale_tags(rounded_factor as int, page_fit);
    proof {
        reveal_with_fuel(join, 3);
    }
    if shown == 100 {
        return String::new();
    }
    let mut s = String::from_str("Zoom: ");
    append_decimal(&mut s, shown);
    s.append("%");
    match (limit, fit) {
        (Some(a), Some(b)) => {
            s.append(" (");
            s.append(a);
            s.append(",");
            s.append(b);
            s.append(")");
            proof {
                assert(tags =~= seq![a@, b@]);
                assert(seq![a@, b@].drop_last() =~= seq![a@]);
            }
        },
        (Some(a), None) => {
            s.append(" (");
            s.append(a);
            s.append(")");
            proof {
                assert(tags =~= seq![a@]);
            }
        },
        (None, Some(b)) => {
            s.append(" (");
            s.append(b);
            s.append(")");
            proof {
                assert(tags =~= seq![b@]);
            }
        },
        (None, None) => {
            proof {
                assert(tags =~= Seq::<Seq<char>>::empty());
            }
        },
    }
    s
}

/// The tags of the status for a requested zoom of `rounded` percent and a
/// fit, spelled out: the limit tag first (`max` at or above the largest
/// zoom, else `min` at or below the smallest), then the fit tag.
pub open spec fn expected_suffix(rounded: int, page_fit: PageFitKind) -> Seq<char> {
    let limit: Option<Seq<char>> = if rounded >= 500 {
        Some(seq!['m', 'a', 'x'])
    } else if rounded <= 10 {
        Some(seq!['m', 'i', 'n'])
    } else {
        None
    };
    let fit: Option<Seq<char>> = match page_fit {
        PageFitKind::Page(_) => Some(seq!['f', 'i', 't', ' ', 'p', 'a', 'g', 'e']),
        PageFitKind::Width(_) => Some(seq!['f', 'i', 't', ' ', 'w', 'i', 'd', 't', 'h']),
        PageFitKind::NoFit => None,
    };
    match (limit, fit) {
        (Some(a), Some(b)) => seq![' ', '('] + a + seq![','] + b + seq![')'],
        (Some(a), None) => seq![' ', '('] + a + seq![')'],
        (None, Some(b)) => seq![' ', '('] + b + seq![')'],
        (None, None) => Seq::<char>::empty(),
    }
}

/// The zoom status names the zoom in force: with no fit the requested
/// zoom, with a fit the zoom of the fit. It is empty when that zoom is 100
/// percent, and otherwise `Zoom: `, the zoom in decimal, `%` and the tags.
pub proof fn law_status_names_zoom_in_force(rounded: int, page_fit: PageFitKind)
    ensures
        SCALE_MAX_PERCENT == 500 && SCALE_MIN_PERCENT == 10,
        page_fit is NoFit && rounded != 100 ==> scale_status_text(rounded, page_fit)
            == seq!['Z', 'o', 'o', 'm', ':', ' '] + decimal(rounded) + seq!['%'] + expected_suffix(rounded, page_fit),
        page_fit is NoFit && rounded == 100 ==> scale_status_text(rounded, page_fit).len() == 0,
        (page_fit matches PageFitKind::Page(p) && p != 100) ==> scale_status_text(rounded, page_fit)
            == seq!['Z', 'o', 'o', 'm', ':', ' '] + decimal(page_fit->Page_0 as int) + seq!['%'] + expected_suffix(rounded, page_fit),
        (page_fit matches PageFitKind::Width(p) && p != 100) ==> scale_status_text(rounded, page_fit)
            == seq!['Z', 'o', 'o', 'm', ':', ' '] + decimal(page_fit->Width_0 as int) + seq!['%'] + expected_suffix(rounded, page_fit),
        (page_fit matches PageFitKind::Page(p) && p == 100) ==> scale_status_text(rounded, page_fit).len() == 0,
        (page_fit matches PageFitKind::Width(p) && p == 100) ==> scale_status_text(rounded, page_fit).len() == 0,
{
    reveal_strlit("Zoom: ");
    reveal_strlit("%");
    reveal_strlit(" (");
    reveal_strlit(")");
    reveal_strlit(",");
    reveal_strlit("max");
    reveal_strlit("min");
    reveal_strlit("fit page");
    reveal_strlit("fit width");
    reveal_with_fuel(join, 3);
    let tags = scale_tags(rounded, page_fit);
    let suffix = if tags.len() == 0 {
        Seq::<char>::empty()
    } else {
        " ("@ + join(tags, ","@) + ")"@
    };
    if tags.len() == 2 {
        assert(tags.drop_last() =~= seq![tags[0]]);
    }
    assert(suffix =~= expected_suffix(rounded, page_fit));
}

/// The zoom status is empty exactly when the shown zoom is 100 percent.
pub proof fn law_status_empty_exactly_at_full_size(rounded: int, page_fit: PageFitKind)
    ensures
        scale_status_text(rounded, page_fit).len() == 0 <==> shown_percent(rounded, page_fit) == 100,
{
    reveal_strlit("Zoom: ");
}

/// The `max` tag is shown exactly at or above the largest zoom, the `min`
/// tag exactly at or below the smallest, and a fit tag exactly for a fit.
pub proof fn law_status_tags(rounded: int, page_fit: PageFitKind)
    ensures
        scale_tags(rounded, page_fit).contains("max"@) <==> rounded >= SCALE_MAX_PERCENT,
        scale_tags(rounded, page_fit).contains("min"@) <==> (rounded < SCALE_MAX_PERCENT && rounded
            <= SCALE_MIN_PERCENT),
        scale_tags(rounded, page_fit).contains("fit page"@) <==> page_fit is Page,
        scale_tags(rounded, page_fit).contains("fit width"@) <==> page_fit is Width,
{
    reveal_strlit("max");
    reveal_strlit("min");
    reveal_strlit("fit page");
    reveal_strlit("fit width");
    let (mx, mn, fp, fw) = ("max"@, "min"@, "fit page"@, "fit width"@);
    assert(mx.len() == 3 && mn.len() == 3 && fp.len() == 8 && fw.len() == 9);
    assert(mx[1] != mn[1]);
    assert(fp[4] != fw[4]);
    let tags = scale_tags(rounded, page_fit);
    let limit: Seq<Seq<char>> = if rounded >= SCALE_MAX_PERCENT {
        seq![mx]
    } else if rounded <= SCALE_MIN_PERCENT {
        seq![mn]
    } else {
        seq![]
    };
    let fit: Seq<Seq<char>> = match page_fit {
        PageFitKind::Page(_) => seq![fp],
        PageFitKind::Width(_) => seq![fw],
        PageFitKind::NoFit => seq![],
    };
    assert(tags =~= limit + fit);
    assert forall|x: Seq<char>| tags.contains(x) <==> (limit.contains(x) || fit.contains(x)) by {
        if tags.contains(x) {
            let i = choose|i: int| 0 <= i < tags.len() && tags[i] == x;
            if i < limit.len() {
                assert(limit[i] == x);
            } else {
                assert(fit[i - limit.len()] == x);
            }
        }
        if limit.contains(x) {
            let i = choose|i: int| 0 <= i < limit.len() && limit[i] == x;
            assert(tags[i] == x);
        }
        if fit.contains(x) {
            let i = choose|i: int| 0 <= i < fit.len() && fit[i] == x;
            assert(tags[limit.len() + i] == x);
        }
    }
    if rounded >= SCALE_MAX_PERCENT {
        assert(limit[0] == mx);
    } else if rounded <= SCALE_MIN_PERCENT {
        assert(limit[0] == mn);
    }
    match page_fit {
        PageFitKind::Page(_) => { assert(fit[0] == fp); },
        PageFitKind::Width(_) => { assert(fit[0] == fw); },
        PageFitKind::NoFit => {},
    }
}

// ---------------------------------------------------------------------------
// Locations: paths and URLs
// ---------------------------------------------------------------------------

/// Why a string could not be parsed as an absolute URL.
pub struct UrlParseFailure {
    /// The string is a relative reference, which needs a base URL.
    pub relative_without_base: bool,
    /// The text the parser describes the failure with.
    pub message: String,
}

/// What `url::Url::parse` makes of `input`: the serialization of the parsed
/// URL, or whether the failure is the missing base of a relative reference,
/// with the failure's text.
pub uninterp spec fn url_parse_outcome(input: Seq<char>) -> Result<Seq<char>, (bool, Seq<char>)>;

/// The plain value of an outcome of `parse_url`.
pub open spec fn parse_outcome_view(r: Result<String, UrlParseFailure>) -> Result<
    Seq<char>,
    (bool, Seq<char>),
> {
    match r {
        Ok(u) => Ok(u@),
        Err(f) => Err((f.relative_without_base, f.message@)),
    }
}

/// Calls `url::Url::parse`. Trusted: the result is the one named by
/// `url_parse_outcome` for the input; the parsed URL is handed on as its
/// serialization (`Url::as_str`), a failure as whether it is
/// `ParseError::RelativeUrlWithoutBase` and its display text.
#[verifier::external_body]
fn parse_url(input: &str) -> (r: Result<String, UrlParseFailure>)
    ensures
        parse_outcome_view(r) == url_parse_outcome(input@),
{
    match url::Url::parse(input) {
        Ok(url) => Ok(String::from(url.as_str())),
        Err(err) => Err(
            UrlParseFailure {
                relative_without_base: err == url::ParseError::RelativeUrlWithoutBase,
                message: err.to_string(),
            },
        ),
    }
}

/// What the file system says of a path: its canonical absolute form, or
/// that this form is not valid Unicode, or why it could not be resolved.
pub enum CanonicalPath {
    Resolved(String),
    NotUnicode,
    Failed(String),
}

/// The URL of `path` (its serialization), given what the file system says
/// of the path: a string that parses as an absolute URL is that URL; a
/// relative reference becomes the `file://` URL of its canonical path;
/// anything else is an error.
pub open spec fn url_result(path: Seq<char>, canonical: CanonicalPath) -> Result<
    Seq<char>,
    (ErrorKind, Seq<char>),
> {
    match url_parse_outcome(path) {
        Ok(u) => Ok(u),
        Err((relative, message)) => {
            if relative {
                match canonical {
                    CanonicalPath::Failed(m) => Err((ErrorKind::File, m@)),
                    CanonicalPath::NotUnicode => Err((ErrorKind::File, "Path string invalid"@)),
                    CanonicalPath::Resolved(p) => match url_parse_outcome("file://"@ + p@) {
                        Ok(u) => Ok(u),
                        Err((_, m)) => Err((ErrorKind::UrlParsing, m)),
                    },
                }
            } else {
                Err((ErrorKind::UrlParsing, message))
            }
        },
    }
}

/// The plain value of a result of `convert_to_url`.
pub open spec fn url_result_view(r: Result<String, Error>) -> Result<Seq<char>, (ErrorKind, Seq<char>)> {
    match r {
        Ok(u) => Ok(u@),
        Err(e) => Err(e@),
    }
}

/// Converts a path, URL or URI string to the URL of the document it names.
/// `canonical_path` is what the file system says of `path_str` as a path;
/// it is read only when `path_str` is a relative reference.
pub fn convert_to_url(path_str: &str, canonical_path: &CanonicalPath) -> (r: Result<String, Error>)
    ensures
        url_result_view(r) == url_result(path_str@, *canonical_path),
{
    match parse_url(path_str) {
        Ok(url) => Ok(url),
        Err(failure) => {
            if failure.relative_without_base {
                match canonical_path {
                    CanonicalPath::Failed(message) => Err(Error::new(ErrorKind::File, message.as_str())),
                    CanonicalPath::NotUnicode => Err(Error::new(ErrorKind::File, "Path string invalid")),
                    CanonicalPath::Resolved(path) => {
                        let patched = String::from_str("file://").concat(path.as_str());
                        match parse_url(patched.as_str()) {
                            Ok(url) => Ok(url),
                            Err(second) => Err(Error::new(ErrorKind::UrlParsing, second.message.as_str())),
                        }
                    },
                }
            } else {
                Err(Error::new(ErrorKind::UrlParsing, failure.message.as_str()))
            }
        },
    }
}

/// Every outcome of converting a location, by what the URL parser says of
/// the string and what the file system says of it as a path:
/// - a string that parses as an absolute URL is that URL;
/// - a string the parser rejects for another reason than a missing base is
///   a URL error with the parser's text;
/// - a relative reference whose path cannot be resolved is a file error
///   with the file system's text, or `Path string invalid` when the
///   resolved path is not Unicode;
/// - a relative reference whose path resolves to `p` is what the parser
///   makes of `file://p`, a URL error with the parser's text if it fails.
pub proof fn law_url_outcomes(path: Seq<char>, canonical: CanonicalPath)
    ensures
        url_parse_outcome(path) is Ok ==> url_result(path, canonical) == Ok::<
            Seq<char>,
            (ErrorKind, Seq<char>),
        >(url_parse_outcome(path)->Ok_0),
        (url_parse_outcome(path) matches Err((relative, m)) && !relative) ==> url_result(path, canonical)
            == Err::<Seq<char>, (ErrorKind, Seq<char>)>((ErrorKind::UrlParsing, url_parse_outcome(path)->Err_0.1)),
        (url_parse_outcome(path) matches Err((relative, _)) && relative) ==> match canonical {
            CanonicalPath::Failed(m) => url_result(path, canonical) == Err::<
                Seq<char>,
                (ErrorKind, Seq<char>),
            >((ErrorKind::File, m@)),
            CanonicalPath::NotUnicode => url_result(path, canonical) == Err::<
                Seq<char>,
                (ErrorKind, Seq<char>),
            >((
                ErrorKind::File,
                seq![
                    'P', 'a', 't', 'h', ' ', 's', 't', 'r', 'i', 'n', 'g', ' ', 'i', 'n', 'v', 'a', 'l', 'i', 'd'
                ],
            )),
            CanonicalPath::Resolved(p) => match url_parse_outcome(seq!['f', 'i', 'l', 'e', ':', '/', '/'] + p@) {
                Ok(u) => url_result(path, canonical) == Ok::<Seq<char>, (ErrorKind, Seq<char>)>(u),
                Err((_, m)) => url_result(path, canonical) == Err::<Seq<char>, (ErrorKind, Seq<char>)>(
                    (ErrorKind::UrlParsing, m),
                ),
            },
        },
{
    reveal_strlit("Path string invalid");
    reveal_strlit("file://");
    assert("file://"@ =~= seq!['f', 'i', 'l', 'e', ':', '/', '/']);
    assert("Path string invalid"@ =~= seq![
        'P', 'a', 't', 'h', ' ', 's', 't', 'r', 'i', 'n', 'g', ' ', 'i', 'n', 'v', 'a', 'l', 'i', 'd'
    ]);
    if let CanonicalPath::Resolved(p) = canonical {
        assert("file://"@ + p@ =~= seq!['f', 'i', 'l', 'e', ':', '/', '/'] + p@);
    }
}

/// A string that parses as an absolute URL is taken as that URL, whatever
/// the file system says of it as a path.
pub proof fn law_absolute_url_kept(path: Seq<char>, canonical: CanonicalPath)
    requires
        url_parse_outcome(path) is Ok,
    ensures
        url_result(path, canonical) == Ok::<Seq<char>, (ErrorKind, Seq<char>)>(
            url_parse_outcome(path)->Ok_0,
        ),
{
}

/// The file system is consulted only for relative references: for any
/// other string the result is the same whatever it says.
pub proof fn law_canonical_path_only_for_relative(
    path: Seq<char>,
    first: CanonicalPath,
    second: CanonicalPath,
)
    requires
        !(url_parse_outcome(path) matches Err((relative, _)) && relative),
    ensures
        url_result(path, first) == url_result(path, second),
{
}

/// A relative reference whose canonical path resolves names the `file://`
/// URL of that path, as the URL parser reads it.
pub proof fn law_relative_reference_becomes_file_url(path: Seq<char>, resolved: String)
    requires
        url_parse_outcome(path) matches Err((relative, _)) && relative,
        url_parse_outcome("file://"@ + resolved@) is Ok,
    ensures
        url_result(path, CanonicalPath::Resolved(resolved)) == Ok::<Seq<char>, (ErrorKind, Seq<char>)>(
            url_parse_outcome("file://"@ + resolved@)->Ok_0,
        ),
{
}

} // verus!
