use vstd::prelude::*;
use crate::config::{Action, ActionView, KeyBindings, KeyBindingsView, Mode, ModeView};
use crate::help::{help_lines_view, HelpLineView, HelpMenuLine};
use crate::text::{copy_strings, strings_view};

verus! {

// ---------------------------------------------------------------------------
// The lines a mode shows in the help menu

/// The lines of `str::lines` of `s`.
pub uninterp spec fn text_lines(s: Seq<char>) -> Seq<Seq<char>>;

/// Calls `str::lines` and collects the lines; they are named [`text_lines`].
#[verifier::external_body]
fn lines_of(s: &str) -> (r: Vec<String>)
    ensures
        strings_view(r@) == text_lines(s@),
{
    s.lines().map(String::from).collect()
}

/// The key (or class of keys) and help an action shows, when it sends
/// messages and has a help text.
pub open spec fn shown_entry(key: Seq<char>, a: ActionView) -> Seq<(Seq<char>, Seq<char>)> {
    match a.help {
        Some(h) => if a.messages.len() > 0 { seq![(key, h)] } else { Seq::empty() },
        None => Seq::empty(),
    }
}

/// [`shown_entry`] of an optional action.
pub open spec fn shown_class(label: Seq<char>, o: Option<ActionView>) -> Seq<(Seq<char>, Seq<char>)> {
    match o {
        Some(a) => shown_entry(label, a),
        None => Seq::empty(),
    }
}

/// The shown entries of the actions bound to keys, in order.
pub open spec fn shown_keys(es: Seq<(Seq<char>, ActionView)>) -> Seq<(Seq<char>, Seq<char>)>
    decreases es.len(),
{
    if es.len() == 0 {
        Seq::empty()
    } else {
        shown_keys(es.drop_last()) + shown_entry(es.last().0, es.last().1)
    }
}

/// The keys and helps that a mode's key bindings show: the keys, then the
/// classes of keys (`[a-Z]`, `[0-9]`, `[0-Z]`, `[^0-Z]`, `[*]`, `[nav]`,
/// `[f1-f12]`) and `[default]`.
pub open spec fn shown_entries(kb: KeyBindingsView) -> Seq<(Seq<char>, Seq<char>)> {
    shown_keys(kb.on_key) + shown_class("[a-Z]"@, kb.on_alphabet) + shown_class("[0-9]"@, kb.on_number)
        + shown_class("[0-Z]"@, kb.on_alphanumeric) + shown_class("[^0-Z]"@, kb.on_special_character)
        + shown_class("[*]"@, kb.on_character) + shown_class("[nav]"@, kb.on_navigation)
        + shown_class("[f1-f12]"@, kb.on_function) + shown_class("[default]"@, kb.default)
}

/// A group of keys with one help: the first key, the other keys, the help.
pub type KeyGroup = (Seq<char>, Seq<Seq<char>>, Seq<char>);

/// The first group with help `h`, if any.
pub open spec fn group_with_help(gs: Seq<KeyGroup>, h: Seq<char>) -> Option<int> {
    if exists|j: int| 0 <= j < gs.len() && gs[j].2 == h {
        Some(choose|j: int| 0 <= j < gs.len() && gs[j].2 == h && forall|k: int| 0 <= k < j ==> gs[k].2 != h)
    } else {
        None
    }
}

/// The groups after one more entry: its key joins the group with its help,
/// or starts a new group at the end.
pub open spec fn add_to_groups(gs: Seq<KeyGroup>, e: (Seq<char>, Seq<char>)) -> Seq<KeyGroup> {
    match group_with_help(gs, e.1) {
        Some(j) => gs.update(j, (gs[j].0, gs[j].1.push(e.0), gs[j].2)),
        None => gs.push((e.0, Seq::empty(), e.1)),
    }
}

/// The entries grouped by help, in the order each help first comes.
pub open spec fn grouped(es: Seq<(Seq<char>, Seq<char>)>) -> Seq<KeyGroup>
    decreases es.len(),
{
    if es.len() == 0 {
        Seq::empty()
    } else {
        add_to_groups(grouped(es.drop_last()), es.last())
    }
}

/// The help lines of a mode: the lines of its help text as paragraphs when
/// it has one, else one line per help its key bindings show, with the first
/// key, the other keys with that help, and the help.
pub open spec fn mode_help_menu(m: ModeView) -> Seq<HelpLineView> {
    match m.help {
        Some(t) => text_lines(t).map_values(|l: Seq<char>| HelpLineView::Paragraph(l)),
        None => grouped(shown_entries(m.key_bindings)).map_values(|g: KeyGroup| HelpLineView::KeyMap(g.0, g.1, g.2)),
    }
}

/// Key groups, taken by their texts.
pub open spec fn groups_view(gs: Seq<(String, Vec<String>, String)>) -> Seq<KeyGroup> {
    gs.map_values(|g: (String, Vec<String>, String)| (g.0@, strings_view(g.1@), g.2@))
}

/// Entries, taken by their texts.
pub open spec fn pairs_view(es: Seq<(String, String)>) -> Seq<(Seq<char>, Seq<char>)> {
    es.map_values(|e: (String, String)| (e.0@, e.1@))
}

/// Appends the entry an action shows under `key`, if any.
fn push_shown(out: &mut Vec<(String, String)>, key: &str, a: &Action)
    ensures
        pairs_view(final(out)@) == pairs_view(old(out)@) + shown_entry(key@, a@),
{
    let ghost before = out@;
    match &a.help {
        Some(h) => if a.messages.len() > 0 {
            out.push((String::from_str(key), h.clone()));
            assert(pairs_view(out@) =~= pairs_view(before) + shown_entry(key@, a@));
        } else {
            assert(pairs_view(out@) =~= pairs_view(before) + shown_entry(key@, a@));
        },
        None => {
            assert(pairs_view(out@) =~= pairs_view(before) + shown_entry(key@, a@));
        },
    }
}

/// Appends the entry an optional action shows under `label`, if any.
fn push_class(out: &mut Vec<(String, String)>, label: &str, o: &Option<Action>)
    ensures
        pairs_view(final(out)@) == pairs_view(old(out)@) + shown_class(label@, match *o {
            Some(a) => Some(a@),
            None => None,
        }),
{
    match o {
        Some(a) => push_shown(out, label, a),
        None => {
            assert(pairs_view(out@) =~= pairs_view(out@) + Seq::<(Seq<char>, Seq<char>)>::empty());
        },
    }
}

/// The keys and helps that key bindings show (see [`shown_entries`]).
pub fn shown_key_entries(kb: &KeyBindings) -> (r: Vec<(String, String)>)
    ensures
        pairs_view(r@) == shown_entries(kb@),
{
    let mut out: Vec<(String, String)> = Vec::new();
    let mut i: usize = 0;
    while i < kb.on_key.len()
        invariant
            i <= kb.on_key.len(),
            pairs_view(out@) == shown_keys(kb@.on_key.take(i as int)),
        decreases kb.on_key.len() - i,
    {
        push_shown(&mut out, kb.on_key[i].0.as_str(), &kb.on_key[i].1);
        assert(kb@.on_key.take(i + 1).drop_last() =~= kb@.on_key.take(i as int));
        assert(kb@.on_key[i as int] == (kb.on_key@[i as int].0@, kb.on_key@[i as int].1@));
        i = i + 1;
    }
    assert(kb@.on_key.take(kb.on_key.len() as int) =~= kb@.on_key);
    push_class(&mut out, "[a-Z]", &kb.on_alphabet);
    push_class(&mut out, "[0-9]", &kb.on_number);
    push_class(&mut out, "[0-Z]", &kb.on_alphanumeric);
    push_class(&mut out, "[^0-Z]", &kb.on_special_character);
    push_class(&mut out, "[*]", &kb.on_character);
    push_class(&mut out, "[nav]", &kb.on_navigation);
    push_class(&mut out, "[f1-f12]", &kb.on_function);
    push_class(&mut out, "[default]", &kb.default);
    assert(pairs_view(out@) =~= shown_entries(kb@));
    out
}

/// The first group with help `h`, if any.
fn find_group(gs: &Vec<(String, Vec<String>, String)>, h: &String) -> (r: Option<usize>)
    ensures
        match r {
            Some(j) => j < gs.len() && group_with_help(groups_view(gs@), h@) == Some(j as int),
            None => group_with_help(groups_view(gs@), h@) is None,
        },
{
    let ghost v = groups_view(gs@);
    let mut i: usize = 0;
    while i < gs.len()
        invariant
            i <= gs.len(),
            v == groups_view(gs@),
            forall|k: int| 0 <= k < i ==> v[k].2 != h@,
        decreases gs.len() - i,
    {
        if gs[i].2 == *h {
            assert(v[i as int].2 == h@);
            let ghost c = choose|j: int| 0 <= j < v.len() && v[j].2 == h@ && forall|k: int| 0 <= k < j ==> v[k].2 != h@;
            assert(c == i as int) by {
                if c < i {
                } else if c > i {
                    assert(v[i as int].2 != h@);
                }
            }
            return Some(i);
        }
        assert(v[i as int].2 != h@);
        i = i + 1;
    }
    None
}

/// The entries grouped by help (see [`grouped`]).
pub fn group_entries(es: &Vec<(String, String)>) -> (r: Vec<(String, Vec<String>, String)>)
    ensures
        groups_view(r@) == grouped(pairs_view(es@)),
{
    let mut gs: Vec<(String, Vec<String>, String)> = Vec::new();
    let mut i: usize = 0;
    while i < es.len()
        invariant
            i <= es.len(),
            groups_view(gs@) == grouped(pairs_view(es@).take(i as int)),
        decreases es.len() - i,
    {
        let ghost before = groups_view(gs@);
        let ghost e = pairs_view(es@)[i as int];
        assert(pairs_view(es@).take(i + 1).drop_last() =~= pairs_view(es@).take(i as int));
        assert(pairs_view(es@).take(i + 1).last() == e);
        match find_group(&gs, &es[i].1) {
            Some(j) => {
                let first = gs[j].0.clone();
                let mut rest = copy_strings(&gs[j].1);
                let help = gs[j].2.clone();
                let ghost rest0 = rest@;
                rest.push(es[i].0.clone());
                assert(strings_view(rest@) =~= strings_view(rest0).push(es@[i as int].0@));
                gs.set(j, (first, rest, help));
                assert(groups_view(gs@) =~= add_to_groups(before, e));
            },
            None => {
                let none: Vec<String> = Vec::new();
                assert(strings_view(none@) =~= Seq::<Seq<char>>::empty());
                gs.push((es[i].0.clone(), none, es[i].1.clone()));
                assert(groups_view(gs@) =~= add_to_groups(before, e));
            },
        }
        i = i + 1;
    }
    assert(pairs_view(es@).take(es.len() as int) =~= pairs_view(es@));
    gs
}

impl Mode {
    /// The lines the mode shows in the help menu (see [`mode_help_menu`]).
    pub fn help_menu(&self) -> (r: Vec<HelpMenuLine>)
        ensures
            help_lines_view(r@) == mode_help_menu(self@),
    {
        let mut out: Vec<HelpMenuLine> = Vec::new();
        match &self.help {
            Some(t) => {
                let ls = lines_of(t.as_str());
                let mut i: usize = 0;
                while i < ls.len()
                    invariant
                        i <= ls.len(),
                        strings_view(ls@) == text_lines(t@),
                        help_lines_view(out@) == strings_view(ls@).take(i as int).map_values(|l: Seq<char>| HelpLineView::Paragraph(l)),
                    decreases ls.len() - i,
                {
                    let ghost before = out@;
                    out.push(HelpMenuLine::Paragraph(ls[i].clone()));
                    assert(help_lines_view(out@) =~= help_lines_view(before).push(HelpLineView::Paragraph(ls@[i as int]@)));
                    assert(strings_view(ls@).take(i + 1) =~= strings_view(ls@).take(i as int).push(ls@[i as int]@));
                    assert(help_lines_view(out@) =~= strings_view(ls@).take(i + 1).map_values(|l: Seq<char>| HelpLineView::Paragraph(l)));
                    i = i + 1;
                }
                assert(strings_view(ls@).take(ls.len() as int) =~= strings_view(ls@));
            },
            None => {
                let gs = group_entries(&shown_key_entries(&self.key_bindings));
                let mut i: usize = 0;
                while i < gs.len()
                    invariant
                        i <= gs.len(),
                        groups_view(gs@) == grouped(shown_entries(self.key_bindings@)),
                        help_lines_view(out@) == groups_view(gs@).take(i as int).map_values(|g: KeyGroup| HelpLineView::KeyMap(g.0, g.1, g.2)),
                    decreases gs.len() - i,
                {
                    let ghost before = out@;
                    out.push(HelpMenuLine::KeyMap(gs[i].0.clone(), copy_strings(&gs[i].1), gs[i].2.clone()));
                    let ghost g = groups_view(gs@)[i as int];
                    assert(help_lines_view(out@) =~= help_lines_view(before).push(HelpLineView::KeyMap(g.0, g.1, g.2)));
                    assert(groups_view(gs@).take(i + 1) =~= groups_view(gs@).take(i as int).push(groups_view(gs@)[i as int]));
                    assert(help_lines_view(out@) =~= groups_view(gs@).take(i + 1).map_values(|g: KeyGroup| HelpLineView::KeyMap(g.0, g.1, g.2)));
                    i = i + 1;
                }
                assert(groups_view(gs@).take(gs.len() as int) =~= groups_view(gs@));
            },
        }
        out
    }
}

} // verus!
