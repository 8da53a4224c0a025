//! The system-wide XKB override: a generated `us` symbols file that pulls in
//! the user's layouts, bind-mounted over the read-only system one so the
//! framework's `pc+us` re-pin on focus loads the user's layout.

use vstd::prelude::*;
use crate::text::{chars_of, concat, decimal, decimal_of, same, split, split_on, string_of, trim, trimmed, views};

verus! {

/// The layout groups a `keyboard_layout` value names: comma separated,
/// trimmed, empty ones dropped.
pub open spec fn groups_spec(layout: Seq<char>) -> Seq<Seq<char>> {
    split(layout, ',').map_values(|p: Seq<char>| trim(p)).filter(|p: Seq<char>| p.len() > 0)
}

pub fn groups(layout: &str) -> (r: Vec<Vec<char>>)
    ensures
        views(r@) == groups_spec(layout@),
{
    let pieces = split_on(&chars_of(layout), ',');
    let ghost all = split(layout@, ',').map_values(|p: Seq<char>| trim(p));
    let mut out: Vec<Vec<char>> = Vec::new();
    let mut i: usize = 0;
    while i < pieces.len()
        invariant
            i <= pieces.len(),
            views(pieces@) == split(layout@, ','),
            all == split(layout@, ',').map_values(|p: Seq<char>| trim(p)),
            views(out@) == all.take(i as int).filter(|p: Seq<char>| p.len() > 0),
        decreases pieces.len() - i,
    {
        let t = trimmed(&pieces[i]);
        proof {
            reveal_with_fuel(Seq::filter, 1);
        }
        assert(all.take(i + 1).drop_last() == all.take(i as int));
        assert(all.take(i + 1).last() == t@);
        let ghost before = out@;
        if t.len() > 0 {
            out.push(t);
            assert(views(out@) =~= views(before).push(all[i as int]));
        }
        i = i + 1;
    }
    assert(all.take(pieces.len() as int) == all);
    out
}

/// The file we shadow is `us`, so `us` itself is included by its `latin`
/// base instead of recursing.
pub open spec fn include_name(g: Seq<char>) -> Seq<char> {
    if g == "us"@ { "latin"@ } else { g }
}

/// The include line of group `i` (0-based): groups after the first name
/// their group number.
pub open spec fn include_line(g: Seq<char>, i: nat) -> Seq<char> {
    if i == 0 {
        "    include \""@ + include_name(g) + "\"\n"@
    } else {
        "    include \""@ + include_name(g) + ":"@ + decimal(i + 1) + "\"\n"@
    }
}

pub open spec fn include_lines(gs: Seq<Seq<char>>) -> Seq<char>
    decreases gs.len(),
{
    if gs.len() == 0 { Seq::empty() } else { include_lines(gs.drop_last()) + include_line(gs.last(), (gs.len() - 1) as nat) }
}

/// The generated symbols file: one include per group, and a group toggle
/// when there is more than one.
pub open spec fn symbols_spec(gs: Seq<Seq<char>>) -> Seq<char> {
    "default partial alphanumeric_keys modifier_keys\nxkb_symbols \"basic\" {\n"@ + include_lines(gs) + (if gs.len()
        > 1 { "    include \"group(alt_shift_toggle)\"\n"@ } else { Seq::empty() }) + "};\n"@
}

fn include_line_of(g: &Vec<char>, i: usize) -> (r: Vec<char>)
    requires
        i < u64::MAX,
    ensures
        r@ == include_line(g@, i as nat),
{
    let name = if same(g, &chars_of("us")) { chars_of("latin") } else { crate::text::slice(g, 0, g.len()) };
    let head = concat(&chars_of("    include \""), &name);
    if i == 0 {
        concat(&head, &chars_of("\"\n"))
    } else {
        let numbered = concat(&concat(&head, &chars_of(":")), &decimal_of(i as u64 + 1));
        concat(&numbered, &chars_of("\"\n"))
    }
}

pub fn symbols(gs: &Vec<Vec<char>>) -> (r: String)
    ensures
        r@ == symbols_spec(views(gs@)),
{
    let mut s = chars_of("default partial alphanumeric_keys modifier_keys\nxkb_symbols \"basic\" {\n");
    let ghost head = s@;
    let mut i: usize = 0;
    while i < gs.len()
        invariant
            i <= gs.len(),
            s@ == head + include_lines(views(gs@).take(i as int)),
        decreases gs.len() - i,
    {
        assert(views(gs@).take(i + 1).drop_last() == views(gs@).take(i as int));
        let line = include_line_of(&gs[i], i);
        s = concat(&s, &line);
        i = i + 1;
    }
    assert(views(gs@).take(gs.len() as int) == views(gs@));
    if gs.len() > 1 {
        s = concat(&s, &chars_of("    include \"group(alt_shift_toggle)\"\n"));
    } else {
        assert(s@ + Seq::<char>::empty() == s@);
    }
    s = concat(&s, &chars_of("};\n"));
    string_of(&s)
}

/// What to install for a `keyboard_layout` value: its groups and the
/// symbols file naming them.
pub struct LayoutOverride {
    pub groups: Vec<String>,
    pub symbols: String,
}

impl LayoutOverride {
    /// The override for `layout`, or None when it names no group.
    pub fn new(layout: &str) -> (r: Option<LayoutOverride>)
        ensures
            match r {
                Some(o) => {
                    &&& groups_spec(layout@).len() > 0
                    &&& o.groups@.map_values(|g: String| g@) == groups_spec(layout@)
                    &&& o.symbols@ == symbols_spec(groups_spec(layout@))
                },
                None => groups_spec(layout@).len() == 0,
            },
    {
        let gs = groups(layout);
        if gs.len() == 0 {
            return None;
        }
        let text = symbols(&gs);
        let mut names: Vec<String> = Vec::new();
        let mut i: usize = 0;
        while i < gs.len()
            invariant
                i <= gs.len(),
                names@.map_values(|g: String| g@) == views(gs@).take(i as int),
            decreases gs.len() - i,
        {
            let ghost before = names@;
            names.push(string_of(&gs[i]));
            assert(names@.map_values(|g: String| g@) =~= before.map_values(|g: String| g@).push(gs@[i as int]@));
            assert(views(gs@).take(i + 1) =~= views(gs@).take(i as int).push(gs@[i as int]@));
            i = i + 1;
        }
        assert(views(gs@).take(gs.len() as int) == views(gs@));
        Some(LayoutOverride { groups: names, symbols: text })
    }
}

} // verus!
