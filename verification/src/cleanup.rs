use vstd::prelude::*;
use crate::failure::{FailureDisposition, HandlerFailure};
use crate::job::opt_string;
use crate::json::{JsonValue, json_get, json_i64, json_str};
use crate::order::{Precedence, compare_text, lex_lt, lemma_lex_asymmetric, lemma_lex_total, lemma_lex_transitive};
use crate::text::chars_of;
use crate::time::{Timestamp, chrono_micros_in_range};

verus! {

/// A Unicode control character (general category `Cc`), as `char::is_control` tests.
pub open spec fn is_control_char(c: char) -> bool {
    c <= '\u{1f}' || ('\u{7f}' <= c && c <= '\u{9f}')
}

/// A path segment that is exactly `.` starts at `i`.
pub open spec fn dot_segment_at(p: Seq<char>, i: int) -> bool {
    &&& p[i] == '.'
    &&& (i == 0 || p[i - 1] == '/')
    &&& (i + 1 == p.len() || p[i + 1] == '/')
}

/// A path segment that is exactly `..` starts at `i`.
pub open spec fn parent_segment_at(p: Seq<char>, i: int) -> bool {
    &&& i + 1 < p.len()
    &&& p[i] == '.' && p[i + 1] == '.'
    &&& (i == 0 || p[i - 1] == '/')
    &&& (i + 2 == p.len() || p[i + 2] == '/')
}

/// Whether a path may be removed below a storage root. Read as Unix path components, it is
/// relative (no root, no leading `.`), never climbs (`..`), names at least one component, and
/// no component holds a backslash or a control character (NUL included). Empty and inner `.`
/// segments are no components.
pub open spec fn is_safe_cleanup_path(p: Seq<char>) -> bool {
    &&& p.len() > 0
    &&& p[0] != '/'
    &&& !dot_segment_at(p, 0)
    &&& forall|i: int| 0 <= i < p.len() ==> !is_control_char(#[trigger] p[i]) && p[i] != '\\'
    &&& forall|i: int| 0 <= i < p.len() ==> !#[trigger] parent_segment_at(p, i)
    &&& exists|i: int| 0 <= i < p.len() && p[i] != '/' && !#[trigger] dot_segment_at(p, i)
}

/// Whether a path may be removed below a storage root.
pub fn safe_cleanup_path(path: &str) -> (safe: bool)
    ensures
        safe == is_safe_cleanup_path(path@),
{
    let p = chars_of(path);
    let n = p.len();
    if n == 0 || p[0] == '/' {
        return false;
    }
    if p[0] == '.' && (n == 1 || p[1] == '/') {
        return false;
    }
    let mut has_component = false;
    let mut i: usize = 0;
    while i < n
        invariant
            p@ == path@,
            n == p@.len(),
            i <= n,
            forall|j: int| 0 <= j < i ==> !is_control_char(#[trigger] p@[j]) && p@[j] != '\\',
            forall|j: int| 0 <= j < i ==> !#[trigger] parent_segment_at(p@, j),
            has_component <==> exists|j: int| 0 <= j < i && p@[j] != '/' && !#[trigger] dot_segment_at(p@, j),
        decreases n - i,
    {
        let c = p[i];
        if c <= '\u{1f}' || ('\u{7f}' <= c && c <= '\u{9f}') || c == '\\' {
            return false;
        }
        let starts_segment = i == 0 || p[i - 1] == '/';
        if c == '.' && starts_segment && i + 1 < n && p[i + 1] == '.' && (i + 2 == n || p[i + 2] == '/') {
            assert(parent_segment_at(p@, i as int));
            return false;
        }
        let dot = c == '.' && starts_segment && (i + 1 == n || p[i + 1] == '/');
        assert(dot == dot_segment_at(p@, i as int));
        if c != '/' && !dot {
            has_component = true;
        }
        i = i + 1;
    }
    has_component
}

/// Strictly increasing texts: sorted and without duplicates.
pub open spec fn strictly_sorted(v: Seq<Seq<char>>) -> bool {
    forall|i: int, j: int| 0 <= i < j < v.len() ==> lex_lt(v[i], v[j])
}

/// The texts of owned strings.
pub open spec fn texts(v: Seq<String>) -> Seq<Seq<char>> {
    v.map_values(|s: String| s@)
}

/// Inserts a text into a strictly sorted list unless it is present.
fn insert_sorted(v: &mut Vec<String>, text: &str)
    requires
        strictly_sorted(texts(old(v)@)),
    ensures
        strictly_sorted(texts(final(v)@)),
        forall|t: Seq<char>| texts(final(v)@).contains(t) <==> (texts(old(v)@).contains(t) || t == text@),
{
    let mut j: usize = 0;
    let mut stop = false;
    while j < v.len() && !stop
        invariant
            strictly_sorted(texts(v@)),
            j <= v@.len(),
            forall|k: int| 0 <= k < j ==> lex_lt(#[trigger] texts(v@)[k], text@),
            stop ==> j < v@.len() && lex_lt(text@, texts(v@)[j as int]),
        decreases v@.len() - j + (if stop { 0int } else { 1int }),
    {
        match compare_text(v[j].as_str(), text) {
            Precedence::Before => {
                j = j + 1;
            },
            Precedence::Same => {
                assert(texts(v@)[j as int] == text@);
                return;
            },
            Precedence::After => {
                stop = true;
            },
        }
    }
    let ghost before = texts(v@);
    v.insert(j, text.to_owned());
    proof {
        let after = texts(v@);
        assert(after =~= before.take(j as int).push(text@) + before.skip(j as int));
        assert forall|a: int, b: int| 0 <= a < b < after.len() implies lex_lt(after[a], after[b]) by {
            if a < j && b < j {
                assert(after[a] == before[a] && after[b] == before[b]);
            } else if a < j && b == j {
                assert(after[a] == before[a]);
            } else if a < j {
                assert(after[a] == before[a] && after[b] == before[b - 1]);
                lemma_lex_transitive(before[a], text@, before[j as int]);
                if b - 1 > j {
                    lemma_lex_transitive(before[a], before[j as int], before[b - 1]);
                }
            } else if a == j {
                assert(after[b] == before[b - 1]);
                if b - 1 > j {
                    lemma_lex_transitive(text@, before[j as int], before[b - 1]);
                }
            } else {
                assert(after[a] == before[a - 1] && after[b] == before[b - 1]);
            }
        }
        assert forall|t: Seq<char>| after.contains(t) <==> (before.contains(t) || t == text@) by {
            if after.contains(t) {
                let k = choose|k: int| 0 <= k < after.len() && after[k] == t;
                if k < j {
                    assert(before[k] == t);
                } else if k > j {
                    assert(before[k - 1] == t);
                }
            }
            if before.contains(t) {
                let k = choose|k: int| 0 <= k < before.len() && before[k] == t;
                if k < j {
                    assert(after[k] == t);
                } else {
                    assert(after[k + 1] == t);
                }
            }
            if t == text@ {
                assert(after[j as int] == t);
            }
        }
    }
}

/// The explicit cleanup manifest of an account purge: absent is `Ok(None)`; otherwise it
/// must be an array of strings that are all safe paths, and the result holds each path once,
/// in sorted order. The first offending item decides the error.
pub open spec fn cleanup_paths_error(items: Seq<JsonValue>) -> Option<Seq<char>>
    decreases items.len(),
{
    if items.len() == 0 {
        None
    } else {
        match json_str(items[0]) {
            None => Some("account purge cleanup paths must be strings"@),
            Some(path) => if !is_safe_cleanup_path(path) {
                Some("account purge cleanup path is invalid"@)
            } else {
                cleanup_paths_error(items.drop_first())
            },
        }
    }
}

/// The files to remove for stored attachments, given the relative path of the `original`,
/// `small` and `static` style of each (absent where a style has none): each path once, in
/// sorted order.
pub fn paperclip_cleanup_paths(style_paths: &Vec<Option<String>>) -> (paths: Vec<String>)
    ensures
        strictly_sorted(texts(paths@)),
        forall|t: Seq<char>| texts(paths@).contains(t)
            <==> exists|i: int| 0 <= i < style_paths@.len() && #[trigger] opt_string(style_paths@[i]) == Some(t),
{
    let mut paths: Vec<String> = Vec::new();
    let mut i: usize = 0;
    while i < style_paths.len()
        invariant
            i <= style_paths@.len(),
            strictly_sorted(texts(paths@)),
            forall|t: Seq<char>| texts(paths@).contains(t)
                <==> exists|k: int| 0 <= k < i && #[trigger] opt_string(style_paths@[k]) == Some(t),
        decreases style_paths@.len() - i,
    {
        let ghost before = texts(paths@);
        if let Some(path) = &style_paths[i] {
            insert_sorted(&mut paths, path.as_str());
        }
        proof {
            assert forall|t: Seq<char>| texts(paths@).contains(t)
                <==> exists|k: int| 0 <= k < i + 1 && #[trigger] opt_string(style_paths@[k]) == Some(t) by {
                if exists|k: int| 0 <= k < i + 1 && #[trigger] opt_string(style_paths@[k]) == Some(t) {
                    let k = choose|k: int| 0 <= k < i + 1 && #[trigger] opt_string(style_paths@[k]) == Some(t);
                    if k < i {
                        assert(before.contains(t));
                    }
                }
                if texts(paths@).contains(t) {
                    if before.contains(t) {
                        let k = choose|k: int| 0 <= k < i && #[trigger] opt_string(style_paths@[k]) == Some(t);
                        assert(0 <= k < i + 1);
                    } else {
                        assert(opt_string(style_paths@[i as int]) == Some(t));
                    }
                }
            }
        }
        i = i + 1;
    }
    paths
}

/// The validated cleanup manifest of an account purge.
pub fn account_purge_cleanup_paths(arguments: &JsonValue) -> (r: Result<Option<Vec<String>>, HandlerFailure>)
    ensures
        json_get(*arguments, "cleanup_paths"@) is None ==> r matches Ok(None),
        json_get(*arguments, "cleanup_paths"@) matches Some(value) ==> match value {
            JsonValue::Array(items) => match cleanup_paths_error(items@) {
                Some(m) => r matches Err(f) && f.disposition == FailureDisposition::Permanent && f.message@ == m,
                None => r matches Ok(Some(paths)) && strictly_sorted(texts(paths@))
                    && forall|t: Seq<char>| texts(paths@).contains(t)
                        <==> exists|i: int| 0 <= i < items@.len() && json_str(#[trigger] items@[i]) == Some(t),
            },
            _ => r matches Err(f) && f.disposition == FailureDisposition::Permanent
                && f.message@ == "account purge cleanup paths must be a JSON array"@,
        },
{
    let value = match arguments.get("cleanup_paths") {
        Some(v) => v,
        None => {
            return Ok(None);
        },
    };
    let items = match value {
        JsonValue::Array(items) => items,
        _ => {
            return Err(HandlerFailure::permanent("account purge cleanup paths must be a JSON array"));
        },
    };
    let mut validated: Vec<String> = Vec::new();
    let mut i: usize = 0;
    assert(items@.skip(0) =~= items@);
    while i < items.len()
        invariant
            i <= items@.len(),
            json_get(*arguments, "cleanup_paths"@) == Some(JsonValue::Array(*items)),
            cleanup_paths_error(items@) == cleanup_paths_error(items@.skip(i as int)),
            strictly_sorted(texts(validated@)),
            forall|t: Seq<char>| texts(validated@).contains(t)
                <==> exists|k: int| 0 <= k < i && json_str(#[trigger] items@[k]) == Some(t),
        decreases items@.len() - i,
    {
        assert(items@.skip(i as int)[0] == items@[i as int]);
        assert(items@.skip(i as int).drop_first() =~= items@.skip(i + 1));
        let path = match items[i].as_str() {
            Some(p) => p,
            None => {
                return Err(HandlerFailure::permanent("account purge cleanup paths must be strings"));
            },
        };
        if !safe_cleanup_path(path) {
            return Err(HandlerFailure::permanent("account purge cleanup path is invalid"));
        }
        let ghost old_validated = texts(validated@);
        insert_sorted(&mut validated, path);
        proof {
            assert forall|t: Seq<char>| texts(validated@).contains(t)
                <==> exists|k: int| 0 <= k < i + 1 && json_str(#[trigger] items@[k]) == Some(t) by {
                if t == path@ {
                    assert(json_str(items@[i as int]) == Some(t));
                }
                if exists|k: int| 0 <= k < i + 1 && json_str(#[trigger] items@[k]) == Some(t) {
                    let k = choose|k: int| 0 <= k < i + 1 && json_str(#[trigger] items@[k]) == Some(t);
                    if k < i {
                        assert(old_validated.contains(t));
                    }
                }
            }
        }
        i = i + 1;
    }
    assert(items@.skip(i as int).len() == 0);
    Ok(Some(validated))
}

/// The deletion request an account purge belongs to: absent is `Ok(None)`; otherwise a
/// positive integer.
pub fn account_purge_deletion_request_id(arguments: &JsonValue) -> (r: Result<Option<i64>, HandlerFailure>)
    ensures
        json_get(*arguments, "deletion_request_id"@) is None ==> r matches Ok(None),
        json_get(*arguments, "deletion_request_id"@) matches Some(value) ==> match json_i64(value) {
            None => r matches Err(f) && f.disposition == FailureDisposition::Permanent
                && f.message@ == "account purge request ID must be an integer"@,
            Some(id) => if id > 0 {
                r matches Ok(Some(x)) && x == id
            } else {
                r matches Err(f) && f.disposition == FailureDisposition::Permanent
                    && f.message@ == "account purge request ID is invalid"@
            },
        },
{
    let value = match arguments.get("deletion_request_id") {
        Some(v) => v,
        None => {
            return Ok(None);
        },
    };
    let request_id = match value.as_i64() {
        Some(id) => id,
        None => {
            return Err(HandlerFailure::permanent("account purge request ID must be an integer"));
        },
    };
    if request_id > 0 {
        Ok(Some(request_id))
    } else {
        Err(HandlerFailure::permanent("account purge request ID is invalid"))
    }
}

/// The creation time of the deletion an account purge belongs to: absent is `Ok(None)`;
/// otherwise integer microseconds that chrono can represent.
pub fn account_purge_deletion_created_at(arguments: &JsonValue) -> (r: Result<Option<Timestamp>, HandlerFailure>)
    ensures
        json_get(*arguments, "deletion_created_at_micros"@) is None ==> r matches Ok(None),
        json_get(*arguments, "deletion_created_at_micros"@) matches Some(value) ==> match json_i64(value) {
            None => r matches Err(f) && f.disposition == FailureDisposition::Permanent
                && f.message@ == "account purge deletion timestamp must be an integer"@,
            Some(micros) => if chrono_micros_in_range(micros as int) {
                r matches Ok(Some(t)) && t.micros_spec() == micros
            } else {
                r matches Err(f) && f.disposition == FailureDisposition::Permanent
                    && f.message@ == "account purge deletion timestamp is invalid"@
            },
        },
{
    let value = match arguments.get("deletion_created_at_micros") {
        Some(v) => v,
        None => {
            return Ok(None);
        },
    };
    let micros = match value.as_i64() {
        Some(m) => m,
        None => {
            return Err(HandlerFailure::permanent("account purge deletion timestamp must be an integer"));
        },
    };
    match Timestamp::from_micros(micros) {
        Some(t) => Ok(Some(t)),
        None => Err(HandlerFailure::permanent("account purge deletion timestamp is invalid")),
    }
}

} // verus!
