//! Keyboard input policy read from the `[input]` table of the UI
//! configuration file. It is not visual theme.

use vstd::prelude::*;

use crate::text::{owned, push_str};
use crate::toml::{
    key_lt, lemma_sorted_child, parse_toml, parsed_tables_are_sorted, sorted_keys, spec_parse_toml,
    table_get, table_index, table_view, TableModel, TomlModel,
};

verus! {

/// Immutable routing intent consumed by the native keyboard classifier.
#[derive(Clone, Copy, Debug, PartialEq, Eq, Structural)]
pub struct InputPolicy {
    pub option_as_alt: bool,
}

impl Default for InputPolicy {
    /// Built-in default: Option stays with the platform layout and IME.
    fn default() -> (r: Self)
        ensures
            !r.option_as_alt,
    {
        InputPolicy { option_as_alt: false }
    }
}

/// One warning per key of the `[input]` table other than `option_as_alt`,
/// in key order.
pub open spec fn unknown_key_warnings(t: TableModel) -> Seq<Seq<char>>
    decreases t.len(),
{
    if t.len() == 0 {
        Seq::empty()
    } else {
        let prev = unknown_key_warnings(t.drop_last());
        let k = t.last().0;
        if k == "option_as_alt"@ {
            prev
        } else {
            prev.push("unknown key input."@ + k + " ignored"@)
        }
    }
}

/// The policy and warnings a configuration text yields: missing or
/// unparsable text, or no `[input]` table, keep the default silently;
/// unknown input keys are reported; a non-boolean `option_as_alt` is
/// reported and ignored.
pub open spec fn spec_input_policy(text: Option<Seq<char>>) -> (bool, Seq<Seq<char>>) {
    match text {
        None => (false, Seq::empty()),
        Some(t) => match spec_parse_toml(t) {
            Err(_) => (false, Seq::empty()),
            Ok(root) => match table_get(root, "input"@) {
                Some(TomlModel::Table(input)) => {
                    let warnings = unknown_key_warnings(input);
                    match table_get(input, "option_as_alt"@) {
                        None => (false, warnings),
                        Some(TomlModel::Bool(b)) => (b, warnings),
                        Some(_) => (
                            false,
                            warnings.push("input.option_as_alt ignored; expected boolean"@),
                        ),
                    }
                },
                _ => (false, Seq::empty()),
            },
        },
    }
}

/// Load `[input] option_as_alt` from configuration text. Missing,
/// unreadable, or invalid values keep `false`; unknown input keys are
/// diagnosed and ignored.
pub fn load_input_policy(toml_text: Option<&str>) -> (r: (InputPolicy, Vec<String>))
    ensures
        r.0.option_as_alt == spec_input_policy(
            match toml_text {
                Some(t) => Some(t@),
                None => None,
            },
        ).0,
        r.1@.map_values(|s: String| s@) == spec_input_policy(
            match toml_text {
                Some(t) => Some(t@),
                None => None,
            },
        ).1,
{
    let mut policy = InputPolicy { option_as_alt: false };
    let mut warnings: Vec<String> = Vec::new();
    assert(warnings@.map_values(|s: String| s@) =~= Seq::<Seq<char>>::empty());
    let text = match toml_text {
        Some(t) => t,
        None => {
            return (policy, warnings);
        },
    };
    let root = match parse_toml(text) {
        Ok(root) => root,
        Err(_) => {
            return (policy, warnings);
        },
    };
    let input = match table_index(&root, "input") {
        Some(k) => match root[k].1.as_table() {
            Some(t) => t,
            None => {
                return (policy, warnings);
            },
        },
        None => {
            return (policy, warnings);
        },
    };
    let ghost iv = table_view(input@);
    let mut i: usize = 0;
    while i < input.len()
        invariant
            0 <= i <= input@.len(),
            iv == table_view(input@),
            warnings@.map_values(|s: String| s@) == unknown_key_warnings(iv.subrange(0, i as int)),
        decreases input@.len() - i,
    {
        assert(iv.subrange(0, i + 1).drop_last() =~= iv.subrange(0, i as int));
        assert(iv.subrange(0, i + 1).last().0 == input@[i as int].0@);
        if input[i].0 != "option_as_alt".to_string() {
            let mut w = owned("unknown key input.");
            push_str(&mut w, input[i].0.as_str());
            push_str(&mut w, " ignored");
            let ghost before = warnings@.map_values(|s: String| s@);
            warnings.push(w);
            assert(warnings@.map_values(|s: String| s@) =~= before.push(warnings@.last()@));
        }
        i = i + 1;
    }
    assert(iv.subrange(0, input@.len() as int) =~= iv);
    match table_index(input, "option_as_alt") {
        None => {},
        Some(k) => {
            match input[k].1.as_bool() {
                Some(parsed) => {
                    policy.option_as_alt = parsed;
                },
                None => {
                    let ghost before = warnings@.map_values(|s: String| s@);
                    warnings.push(owned("input.option_as_alt ignored; expected boolean"));
                    assert(warnings@.map_values(|s: String| s@) =~= before.push(
                        "input.option_as_alt ignored; expected boolean"@,
                    ));
                },
            }
        },
    }
    (policy, warnings)
}

/// The keys of `t` other than `option_as_alt`, in table order.
pub open spec fn unknown_keys(t: TableModel) -> Seq<Seq<char>>
    decreases t.len(),
{
    if t.len() == 0 {
        Seq::empty()
    } else if t.last().0 == "option_as_alt"@ {
        unknown_keys(t.drop_last())
    } else {
        unknown_keys(t.drop_last()).push(t.last().0)
    }
}

/// The warning about one unknown key.
pub open spec fn unknown_key_warning(k: Seq<char>) -> Seq<char> {
    "unknown key input."@ + k + " ignored"@
}

proof fn lemma_unknown_keys(t: TableModel)
    requires
        sorted_keys(t),
    ensures
        unknown_key_warnings(t) == unknown_keys(t).map_values(|k: Seq<char>| unknown_key_warning(k)),
        forall|i: int, j: int|
            0 <= i < j < unknown_keys(t).len() ==> key_lt(
                #[trigger] unknown_keys(t)[i],
                #[trigger] unknown_keys(t)[j],
            ),
        forall|i: int|
            0 <= i < unknown_keys(t).len() ==> exists|m: int|
                0 <= m < t.len() && #[trigger] unknown_keys(t)[i] == t[m].0 && t[m].0
                    != "option_as_alt"@,
    decreases t.len(),
{
    if t.len() > 0 {
        let d = t.drop_last();
        assert forall|i: int, j: int| 0 <= i < j < d.len() implies key_lt(
            #[trigger] d[i].0,
            #[trigger] d[j].0,
        ) by {
            assert(d[i] == t[i] && d[j] == t[j]);
        }
        lemma_unknown_keys(d);
        let u = unknown_keys(d);
        assert forall|i: int| 0 <= i < u.len() implies exists|m: int|
            0 <= m < t.len() && #[trigger] u[i] == t[m].0 && t[m].0 != "option_as_alt"@ by {
            let m = choose|m: int| 0 <= m < d.len() && u[i] == d[m].0 && d[m].0 != "option_as_alt"@;
            assert(d[m] == t[m]);
        }
        if t.last().0 != "option_as_alt"@ {
            let n = t.len() - 1;
            assert forall|i: int| 0 <= i < u.len() implies key_lt(#[trigger] u[i], t[n].0) by {
                let m = choose|m: int| 0 <= m < d.len() && u[i] == d[m].0 && d[m].0 != "option_as_alt"@;
                assert(d[m] == t[m]);
            }
            assert(unknown_key_warnings(t) =~= unknown_keys(t).map_values(
                |k: Seq<char>| unknown_key_warning(k),
            ));
            assert forall|i: int| 0 <= i < unknown_keys(t).len() implies exists|m: int|
                0 <= m < t.len() && #[trigger] unknown_keys(t)[i] == t[m].0 && t[m].0
                    != "option_as_alt"@ by {
                if i < u.len() {
                    assert(unknown_keys(t)[i] == u[i]);
                } else {
                    assert(unknown_keys(t)[i] == t[n].0);
                }
            }
        } else {
            assert(unknown_key_warnings(t) =~= unknown_keys(t).map_values(
                |k: Seq<char>| unknown_key_warning(k),
            ));
        }
    } else {
        assert(unknown_key_warnings(t) =~= unknown_keys(t).map_values(
            |k: Seq<char>| unknown_key_warning(k),
        ));
    }
}

/// The input policy reads the `[input]` table and nothing else. Missing or
/// unparsable text, or a document without an `[input]` table, give the
/// default and no warnings. Otherwise `option_as_alt` is on only when it is
/// the boolean `true`; each key of `[input]` other than `option_as_alt` is
/// reported, in sorted key order; and a non-boolean `option_as_alt` adds its
/// warning after them.
pub proof fn input_policy_reads_only_the_input_table(text: Seq<char>)
    ensures
        spec_input_policy(None) == (false, Seq::<Seq<char>>::empty()),
        match spec_parse_toml(text) {
            Err(_) => spec_input_policy(Some(text)) == (false, Seq::<Seq<char>>::empty()),
            Ok(root) => match table_get(root, "input"@) {
                Some(TomlModel::Table(input)) => {
                    &&& spec_input_policy(Some(text)).0 == (table_get(input, "option_as_alt"@)
                        == Some(TomlModel::Bool(true)))
                    &&& spec_input_policy(Some(text)).1.take(unknown_keys(input).len() as int)
                        == unknown_keys(input).map_values(|k: Seq<char>| unknown_key_warning(k))
                    &&& forall|i: int, j: int|
                        0 <= i < j < unknown_keys(input).len() ==> key_lt(
                            #[trigger] unknown_keys(input)[i],
                            #[trigger] unknown_keys(input)[j],
                        )
                    &&& spec_input_policy(Some(text)).1.len() == unknown_keys(input).len() + (
                    match table_get(input, "option_as_alt"@) {
                        Some(TomlModel::Bool(_)) => 0int,
                        None => 0int,
                        Some(_) => 1int,
                    })
                },
                _ => spec_input_policy(Some(text)) == (false, Seq::<Seq<char>>::empty()),
            },
        },
{
    parsed_tables_are_sorted(text);
    if let Ok(root) = spec_parse_toml(text) {
        lemma_sorted_child(root, "input"@);
        if let Some(TomlModel::Table(input)) = table_get(root, "input"@) {
            lemma_unknown_keys(input);
            let w = unknown_key_warnings(input);
            assert(w.len() == unknown_keys(input).len());
            assert(w.push("input.option_as_alt ignored; expected boolean"@).take(w.len() as int)
                =~= w);
            assert(w.take(w.len() as int) =~= w);
        }
    }
}

} // verus!
