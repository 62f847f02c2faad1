use vstd::prelude::*;

use crate::paths::join_of;
use crate::paths::join_path;
use crate::text::trim;
use crate::text::trim_of;

verus! {

/// A prompt to put to the user: its text, whether an answer is mandatory
/// (blank answers are asked again), and the value a blank answer falls back
/// to when one exists.
pub struct Question {
    pub text: String,
    pub mandatory: bool,
    pub default: Option<String>,
}

/// How one field of the installation request is settled: either a flag
/// supplied the value verbatim, or the user must be asked.
pub enum Resolution {
    Given(String),
    Ask(Question),
}

/// What one typed line means for a prompt: ask again, or accept a value.
pub enum Reply {
    Again,
    Value(String),
}

/// The view of an optional string.
pub open spec fn opt_view(o: Option<String>) -> Option<Seq<char>> {
    match o {
        Some(s) => Some(s@),
        None => None,
    }
}

/// Interprets one typed line: the line is trimmed; a blank answer to a
/// mandatory prompt is asked again; a blank answer otherwise takes the
/// default when there is one, else stands as the empty string; any other
/// answer is taken trimmed.
pub fn resolve_response(line: &str, mandatory: bool, default: &Option<String>) -> (r: Reply)
    ensures
        mandatory && trim_of(line@).len() == 0 ==> r == Reply::Again,
        !mandatory && trim_of(line@).len() == 0 && default is Some ==> (r matches Reply::Value(v)
            && v@ == default.unwrap()@),
        !mandatory && trim_of(line@).len() == 0 && default is None ==> (r matches Reply::Value(v)
            && v@ == trim_of(line@)),
        trim_of(line@).len() > 0 ==> (r matches Reply::Value(v) && v@ == trim_of(line@)),
{
    let t = trim(line);
    if mandatory && t.unicode_len() == 0 {
        Reply::Again
    } else if t.unicode_len() == 0 {
        match default {
            Some(d) => Reply::Value(d.clone()),
            None => Reply::Value(t),
        }
    } else {
        Reply::Value(t)
    }
}

/// What a sequence of typed lines resolves to under the re-prompt rule:
/// the first line whose trimmed text is accepted decides; a mandatory
/// prompt consumes blank lines; running out of lines resolves nothing.
pub open spec fn resolved_by_lines(
    lines: Seq<Seq<char>>,
    mandatory: bool,
    default: Option<Seq<char>>,
) -> Option<Seq<char>>
    decreases lines.len(),
{
    if lines.len() == 0 {
        None
    } else {
        let t = trim_of(lines.first());
        if mandatory && t.len() == 0 {
            resolved_by_lines(lines.drop_first(), mandatory, default)
        } else if t.len() == 0 && default is Some {
            Some(default.unwrap())
        } else {
            Some(t)
        }
    }
}

/// Puts a question to a supplied sequence of input lines, asking again on
/// blank mandatory answers, and returns the accepted value; `None` when the
/// lines run out first.
pub fn ask_user(q: &Question, lines: &Vec<String>) -> (r: Option<String>)
    ensures
        match r {
            Some(v) => resolved_by_lines(
                lines@.map_values(|l: String| l@),
                q.mandatory,
                opt_view(q.default),
            ) == Some(v@),
            None => resolved_by_lines(
                lines@.map_values(|l: String| l@),
                q.mandatory,
                opt_view(q.default),
            ) is None,
        },
{
    let ghost m = lines@.map_values(|l: String| l@);
    proof {
        assert(m.skip(0) =~= m);
    }
    let n = lines.len();
    let mut idx: usize = 0;
    while idx < n
        invariant
            0 <= idx <= n,
            n == lines@.len(),
            m == lines@.map_values(|l: String| l@),
            resolved_by_lines(m.skip(idx as int), q.mandatory, opt_view(q.default))
                == resolved_by_lines(m, q.mandatory, opt_view(q.default)),
        decreases n - idx,
    {
        let line = &lines[idx];
        proof {
            assert(m.skip(idx as int).first() == m[idx as int]);
            assert(m[idx as int] == line@);
            assert(m.skip(idx as int).drop_first() =~= m.skip(idx + 1));
        }
        let reply = resolve_response(line.as_str(), q.mandatory, &q.default);
        match reply {
            Reply::Value(v) => {
                return Some(v);
            },
            Reply::Again => {
                idx = idx + 1;
            },
        }
    }
    None
}

/// A mandatory prompt is asked again until something other than white
/// space is typed: whatever value it resolves to is never blank, however
/// many lines it takes.
pub proof fn lemma_mandatory_resolves_nonblank(
    lines: Seq<Seq<char>>,
    default: Option<Seq<char>>,
)
    ensures
        resolved_by_lines(lines, true, default) matches Some(v) ==> v.len() > 0,
    decreases lines.len(),
{
    if lines.len() > 0 {
        let t = trim_of(lines.first());
        if t.len() == 0 {
            lemma_mandatory_resolves_nonblank(lines.drop_first(), default);
        }
    }
}

/// The application name: taken verbatim from the flag, else asked for with
/// a mandatory prompt and no default.
pub fn get_appname(name: Option<String>) -> (r: Resolution)
    ensures
        name matches Some(v) ==> r == Resolution::Given(v),
        name is None ==> (r matches Resolution::Ask(q) && q.text@
            == "Enter the application name (ex: FreeCAD):"@ && q.mandatory && q.default is None),
{
    match name {
        Some(v) => Resolution::Given(v),
        None => Resolution::Ask(
            Question {
                text: String::from_str("Enter the application name (ex: FreeCAD):"),
                mandatory: true,
                default: None,
            },
        ),
    }
}

/// The icon source path: taken verbatim from the flag, else asked for with
/// an optional prompt and no default.
pub fn get_icon(icon: Option<String>) -> (r: Resolution)
    ensures
        icon matches Some(v) ==> r == Resolution::Given(v),
        icon is None ==> (r matches Resolution::Ask(q) && q.text@
            == "Enter the icon file path (ex: ./freecad.svg):"@ && !q.mandatory && q.default
            is None),
{
    match icon {
        Some(v) => Resolution::Given(v),
        None => Resolution::Ask(
            Question {
                text: String::from_str("Enter the icon file path (ex: ./freecad.svg):"),
                mandatory: false,
                default: None,
            },
        ),
    }
}

/// The description: taken verbatim from the flag, else asked for with an
/// optional prompt and no default.
pub fn get_description(description: Option<String>) -> (r: Resolution)
    ensures
        description matches Some(v) ==> r == Resolution::Given(v),
        description is None ==> (r matches Resolution::Ask(q) && q.text@
            == "Enter the application description:"@ && !q.mandatory && q.default is None),
{
    match description {
        Some(v) => Resolution::Given(v),
        None => Resolution::Ask(
            Question {
                text: String::from_str("Enter the application description:"),
                mandatory: false,
                default: None,
            },
        ),
    }
}

/// The install directory: taken verbatim from the flag, else asked for with
/// an optional prompt whose default is `Apps` under the home directory.
pub fn get_target(target: Option<String>, home: &str) -> (r: Resolution)
    ensures
        target matches Some(v) ==> r == Resolution::Given(v),
        target is None ==> (r matches Resolution::Ask(q) && q.text@
            == "Enter the application target directory (default: $USER/Apps):"@ && !q.mandatory
            && (q.default matches Some(d) && d@ == join_of(home@, "Apps"@))),
{
    match target {
        Some(v) => Resolution::Given(v),
        None => {
            let d = join_path(home, "Apps");
            Resolution::Ask(
                Question {
                    text: String::from_str(
                        "Enter the application target directory (default: $USER/Apps):",
                    ),
                    mandatory: false,
                    default: Some(d),
                },
            )
        },
    }
}

/// The desktop category: taken verbatim from the flag, else asked for with
/// an optional prompt and no default.
pub fn get_category(category: Option<String>) -> (r: Resolution)
    ensures
        category matches Some(v) ==> r == Resolution::Given(v),
        category is None ==> (r matches Resolution::Ask(q) && q.text@
            == "Enter the application category (ex: Graphics):"@ && !q.mandatory && q.default
            is None),
{
    match category {
        Some(v) => Resolution::Given(v),
        None => Resolution::Ask(
            Question {
                text: String::from_str("Enter the application category (ex: Graphics):"),
                mandatory: false,
                default: None,
            },
        ),
    }
}

} // verus!
