//! X keysym names: the character each one types, the dead keys and their
//! combining marks, and the precomposed forms a dead key can produce.

use vstd::prelude::*;
use crate::text::{chars_of, same};

verus! {

/// Keysym names and the character each types.
pub open spec fn name_table() -> Seq<(&'static str, char)> {
    name_table_0() + name_table_1() + name_table_2() + name_table_3() + name_table_4() + name_table_5() + name_table_6() + name_table_7() + name_table_8() + name_table_9() + name_table_10()
}

pub open spec fn name_table_0() -> Seq<(&'static str, char)> {
    seq![
        ("0", '\u{30}'),
        ("1", '\u{31}'),
        ("2", '\u{32}'),
        ("3", '\u{33}'),
        ("4", '\u{34}'),
        ("5", '\u{35}'),
        ("6", '\u{36}'),
        ("7", '\u{37}'),
        ("8", '\u{38}'),
        ("9", '\u{39}'),
        ("A", '\u{41}'),
        ("B", '\u{42}'),
        ("C", '\u{43}'),
        ("D", '\u{44}'),
        ("E", '\u{45}'),
        ("F", '\u{46}'),
        ("G", '\u{47}'),
        ("H", '\u{48}'),
        ("I", '\u{49}'),
        ("J", '\u{4a}'),
    ]
}

fn names_0() -> (t: Vec<(&'static str, char)>)
    ensures
        t@ == name_table_0(),
{
    let mut t: Vec<(&'static str, char)> = Vec::new();
    t.push(("0", '\u{30}'));
    t.push(("1", '\u{31}'));
    t.push(("2", '\u{32}'));
    t.push(("3", '\u{33}'));
    t.push(("4", '\u{34}'));
    t.push(("5", '\u{35}'));
    t.push(("6", '\u{36}'));
    t.push(("7", '\u{37}'));
    t.push(("8", '\u{38}'));
    t.push(("9", '\u{39}'));
    t.push(("A", '\u{41}'));
    t.push(("B", '\u{42}'));
    t.push(("C", '\u{43}'));
    t.push(("D", '\u{44}'));
    t.push(("E", '\u{45}'));
    t.push(("F", '\u{46}'));
    t.push(("G", '\u{47}'));
    t.push(("H", '\u{48}'));
    t.push(("I", '\u{49}'));
    t.push(("J", '\u{4a}'));
    t
}

pub open spec fn name_table_1() -> Seq<(&'static str, char)> {
    seq![
        ("K", '\u{4b}'),
        ("L", '\u{4c}'),
        ("M", '\u{4d}'),
        ("N", '\u{4e}'),
        ("O", '\u{4f}'),
        ("P", '\u{50}'),
        ("Q", '\u{51}'),
        ("R", '\u{52}'),
        ("S", '\u{53}'),
        ("T", '\u{54}'),
        ("U", '\u{55}'),
        ("V", '\u{56}'),
        ("W", '\u{57}'),
        ("X", '\u{58}'),
        ("Y", '\u{59}'),
        ("Z", '\u{5a}'),
        ("a", '\u{61}'),
        ("b", '\u{62}'),
        ("c", '\u{63}'),
        ("d", '\u{64}'),
    ]
}

fn names_1() -> (t: Vec<(&'static str, char)>)
    ensures
        t@ == name_table_1(),
{
    let mut t: Vec<(&'static str, char)> = Vec::new();
    t.push(("K", '\u{4b}'));
    t.push(("L", '\u{4c}'));
    t.push(("M", '\u{4d}'));
    t.push(("N", '\u{4e}'));
    t.push(("O", '\u{4f}'));
    t.push(("P", '\u{50}'));
    t.push(("Q", '\u{51}'));
    t.push(("R", '\u{52}'));
    t.push(("S", '\u{53}'));
    t.push(("T", '\u{54}'));
    t.push(("U", '\u{55}'));
    t.push(("V", '\u{56}'));
    t.push(("W", '\u{57}'));
    t.push(("X", '\u{58}'));
    t.push(("Y", '\u{59}'));
    t.push(("Z", '\u{5a}'));
    t.push(("a", '\u{61}'));
    t.push(("b", '\u{62}'));
    t.push(("c", '\u{63}'));
    t.push(("d", '\u{64}'));
    t
}

pub open spec fn name_table_2() -> Seq<(&'static str, char)> {
    seq![
        ("e", '\u{65}'),
        ("f", '\u{66}'),
        ("g", '\u{67}'),
        ("h", '\u{68}'),
        ("i", '\u{69}'),
        ("j", '\u{6a}'),
        ("k", '\u{6b}'),
        ("l", '\u{6c}'),
        ("m", '\u{6d}'),
        ("n", '\u{6e}'),
        ("o", '\u{6f}'),
        ("p", '\u{70}'),
        ("q", '\u{71}'),
        ("r", '\u{72}'),
        ("s", '\u{73}'),
        ("t", '\u{74}'),
        ("u", '\u{75}'),
        ("v", '\u{76}'),
        ("w", '\u{77}'),
        ("x", '\u{78}'),
    ]
}

fn names_2() -> (t: Vec<(&'static str, char)>)
    ensures
        t@ == name_table_2(),
{
    let mut t: Vec<(&'static str, char)> = Vec::new();
    t.push(("e", '\u{65}'));
    t.push(("f", '\u{66}'));
    t.push(("g", '\u{67}'));
    t.push(("h", '\u{68}'));
    t.push(("i", '\u{69}'));
    t.push(("j", '\u{6a}'));
    t.push(("k", '\u{6b}'));
    t.push(("l", '\u{6c}'));
    t.push(("m", '\u{6d}'));
    t.push(("n", '\u{6e}'));
    t.push(("o", '\u{6f}'));
    t.push(("p", '\u{70}'));
    t.push(("q", '\u{71}'));
    t.push(("r", '\u{72}'));
    t.push(("s", '\u{73}'));
    t.push(("t", '\u{74}'));
    t.push(("u", '\u{75}'));
    t.push(("v", '\u{76}'));
    t.push(("w", '\u{77}'));
    t.push(("x", '\u{78}'));
    t
}

pub open spec fn name_table_3() -> Seq<(&'static str, char)> {
    seq![
        ("y", '\u{79}'),
        ("z", '\u{7a}'),
        ("space", '\u{20}'),
        ("exclam", '\u{21}'),
        ("quotedbl", '\u{22}'),
        ("numbersign", '\u{23}'),
        ("dollar", '\u{24}'),
        ("percent", '\u{25}'),
        ("ampersand", '\u{26}'),
        ("apostrophe", '\u{27}'),
        ("parenleft", '\u{28}'),
        ("parenright", '\u{29}'),
        ("asterisk", '\u{2a}'),
        ("plus", '\u{2b}'),
        ("comma", '\u{2c}'),
        ("minus", '\u{2d}'),
        ("period", '\u{2e}'),
        ("slash", '\u{2f}'),
        ("colon", '\u{3a}'),
        ("semicolon", '\u{3b}'),
    ]
}

fn names_3() -> (t: Vec<(&'static str, char)>)
    ensures
        t@ == name_table_3(),
{
    let mut t: Vec<(&'static str, char)> = Vec::new();
    t.push(("y", '\u{79}'));
    t.push(("z", '\u{7a}'));
    t.push(("space", '\u{20}'));
    t.push(("exclam", '\u{21}'));
    t.push(("quotedbl", '\u{22}'));
    t.push(("numbersign", '\u{23}'));
    t.push(("dollar", '\u{24}'));
    t.push(("percent", '\u{25}'));
    t.push(("ampersand", '\u{26}'));
    t.push(("apostrophe", '\u{27}'));
    t.push(("parenleft", '\u{28}'));
    t.push(("parenright", '\u{29}'));
    t.push(("asterisk", '\u{2a}'));
    t.push(("plus", '\u{2b}'));
    t.push(("comma", '\u{2c}'));
    t.push(("minus", '\u{2d}'));
    t.push(("period", '\u{2e}'));
    t.push(("slash", '\u{2f}'));
    t.push(("colon", '\u{3a}'));
    t.push(("semicolon", '\u{3b}'));
    t
}

pub open spec fn name_table_4() -> Seq<(&'static str, char)> {
    seq![
        ("less", '\u{3c}'),
        ("equal", '\u{3d}'),
        ("greater", '\u{3e}'),
        ("question", '\u{3f}'),
        ("at", '\u{40}'),
        ("bracketleft", '\u{5b}'),
        ("backslash", '\u{5c}'),
        ("bracketright", '\u{5d}'),
        ("asciicircum", '\u{5e}'),
        ("underscore", '\u{5f}'),
        ("grave", '\u{60}'),
        ("braceleft", '\u{7b}'),
        ("bar", '\u{7c}'),
        ("braceright", '\u{7d}'),
        ("asciitilde", '\u{7e}'),
        ("nobreakspace", '\u{a0}'),
        ("exclamdown", '\u{a1}'),
        ("cent", '\u{a2}'),
        ("sterling", '\u{a3}'),
        ("currency", '\u{a4}'),
    ]
}

fn names_4() -> (t: Vec<(&'static str, char)>)
    ensures
        t@ == name_table_4(),
{
    let mut t: Vec<(&'static str, char)> = Vec::new();
    t.push(("less", '\u{3c}'));
    t.push(("equal", '\u{3d}'));
    t.push(("greater", '\u{3e}'));
    t.push(("question", '\u{3f}'));
    t.push(("at", '\u{40}'));
    t.push(("bracketleft", '\u{5b}'));
    t.push(("backslash", '\u{5c}'));
    t.push(("bracketright", '\u{5d}'));
    t.push(("asciicircum", '\u{5e}'));
    t.push(("underscore", '\u{5f}'));
    t.push(("grave", '\u{60}'));
    t.push(("braceleft", '\u{7b}'));
    t.push(("bar", '\u{7c}'));
    t.push(("braceright", '\u{7d}'));
    t.push(("asciitilde", '\u{7e}'));
    t.push(("nobreakspace", '\u{a0}'));
    t.push(("exclamdown", '\u{a1}'));
    t.push(("cent", '\u{a2}'));
    t.push(("sterling", '\u{a3}'));
    t.push(("currency", '\u{a4}'));
    t
}

pub open spec fn name_table_5() -> Seq<(&'static str, char)> {
    seq![
        ("yen", '\u{a5}'),
        ("brokenbar", '\u{a6}'),
        ("section", '\u{a7}'),
        ("diaeresis", '\u{a8}'),
        ("copyright", '\u{a9}'),
        ("ordfeminine", '\u{aa}'),
        ("guillemotleft", '\u{ab}'),
        ("notsign", '\u{ac}'),
        ("hyphen", '\u{ad}'),
        ("registered", '\u{ae}'),
        ("macron", '\u{af}'),
        ("degree", '\u{b0}'),
        ("plusminus", '\u{b1}'),
        ("twosuperior", '\u{b2}'),
        ("threesuperior", '\u{b3}'),
        ("acute", '\u{b4}'),
        ("mu", '\u{b5}'),
        ("paragraph", '\u{b6}'),
        ("periodcentered", '\u{b7}'),
        ("cedilla", '\u{b8}'),
    ]
}

fn names_5() -> (t: Vec<(&'static str, char)>)
    ensures
        t@ == name_table_5(),
{
    let mut t: Vec<(&'static str, char)> = Vec::new();
    t.push(("yen", '\u{a5}'));
    t.push(("brokenbar", '\u{a6}'));
    t.push(("section", '\u{a7}'));
    t.push(("diaeresis", '\u{a8}'));
    t.push(("copyright", '\u{a9}'));
    t.push(("ordfeminine", '\u{aa}'));
    t.push(("guillemotleft", '\u{ab}'));
    t.push(("notsign", '\u{ac}'));
    t.push(("hyphen", '\u{ad}'));
    t.push(("registered", '\u{ae}'));
    t.push(("macron", '\u{af}'));
    t.push(("degree", '\u{b0}'));
    t.push(("plusminus", '\u{b1}'));
    t.push(("twosuperior", '\u{b2}'));
    t.push(("threesuperior", '\u{b3}'));
    t.push(("acute", '\u{b4}'));
    t.push(("mu", '\u{b5}'));
    t.push(("paragraph", '\u{b6}'));
    t.push(("periodcentered", '\u{b7}'));
    t.push(("cedilla", '\u{b8}'));
    t
}

pub open spec fn name_table_6() -> Seq<(&'static str, char)> {
    seq![
        ("onesuperior", '\u{b9}'),
        ("masculine", '\u{ba}'),
        ("guillemotright", '\u{bb}'),
        ("onequarter", '\u{bc}'),
        ("onehalf", '\u{bd}'),
        ("threequarters", '\u{be}'),
        ("questiondown", '\u{bf}'),
        ("Agrave", '\u{c0}'),
        ("Aacute", '\u{c1}'),
        ("Acircumflex", '\u{c2}'),
        ("Atilde", '\u{c3}'),
        ("Adiaeresis", '\u{c4}'),
        ("Aring", '\u{c5}'),
        ("AE", '\u{c6}'),
        ("Ccedilla", '\u{c7}'),
        ("Egrave", '\u{c8}'),
        ("Eacute", '\u{c9}'),
        ("Ecircumflex", '\u{ca}'),
        ("Ediaeresis", '\u{cb}'),
        ("Igrave", '\u{cc}'),
    ]
}

fn names_6() -> (t: Vec<(&'static str, char)>)
    ensures
        t@ == name_table_6(),
{
    let mut t: Vec<(&'static str, char)> = Vec::new();
    t.push(("onesuperior", '\u{b9}'));
    t.push(("masculine", '\u{ba}'));
    t.push(("guillemotright", '\u{bb}'));
    t.push(("onequarter", '\u{bc}'));
    t.push(("onehalf", '\u{bd}'));
    t.push(("threequarters", '\u{be}'));
    t.push(("questiondown", '\u{bf}'));
    t.push(("Agrave", '\u{c0}'));
    t.push(("Aacute", '\u{c1}'));
    t.push(("Acircumflex", '\u{c2}'));
    t.push(("Atilde", '\u{c3}'));
    t.push(("Adiaeresis", '\u{c4}'));
    t.push(("Aring", '\u{c5}'));
    t.push(("AE", '\u{c6}'));
    t.push(("Ccedilla", '\u{c7}'));
    t.push(("Egrave", '\u{c8}'));
    t.push(("Eacute", '\u{c9}'));
    t.push(("Ecircumflex", '\u{ca}'));
    t.push(("Ediaeresis", '\u{cb}'));
    t.push(("Igrave", '\u{cc}'));
    t
}

pub open spec fn name_table_7() -> Seq<(&'static str, char)> {
    seq![
        ("Iacute", '\u{cd}'),
        ("Icircumflex", '\u{ce}'),
        ("Idiaeresis", '\u{cf}'),
        ("ETH", '\u{d0}'),
        ("Ntilde", '\u{d1}'),
        ("Ograve", '\u{d2}'),
        ("Oacute", '\u{d3}'),
        ("Ocircumflex", '\u{d4}'),
        ("Otilde", '\u{d5}'),
        ("Odiaeresis", '\u{d6}'),
        ("multiply", '\u{d7}'),
        ("Oslash", '\u{d8}'),
        ("Ugrave", '\u{d9}'),
        ("Uacute", '\u{da}'),
        ("Ucircumflex", '\u{db}'),
        ("Udiaeresis", '\u{dc}'),
        ("Yacute", '\u{dd}'),
        ("THORN", '\u{de}'),
        ("ssharp", '\u{df}'),
        ("agrave", '\u{e0}'),
    ]
}

fn names_7() -> (t: Vec<(&'static str, char)>)
    ensures
        t@ == name_table_7(),
{
    let mut t: Vec<(&'static str, char)> = Vec::new();
    t.push(("Iacute", '\u{cd}'));
    t.push(("Icircumflex", '\u{ce}'));
    t.push(("Idiaeresis", '\u{cf}'));
    t.push(("ETH", '\u{d0}'));
    t.push(("Ntilde", '\u{d1}'));
    t.push(("Ograve", '\u{d2}'));
    t.push(("Oacute", '\u{d3}'));
    t.push(("Ocircumflex", '\u{d4}'));
    t.push(("Otilde", '\u{d5}'));
    t.push(("Odiaeresis", '\u{d6}'));
    t.push(("multiply", '\u{d7}'));
    t.push(("Oslash", '\u{d8}'));
    t.push(("Ugrave", '\u{d9}'));
    t.push(("Uacute", '\u{da}'));
    t.push(("Ucircumflex", '\u{db}'));
    t.push(("Udiaeresis", '\u{dc}'));
    t.push(("Yacute", '\u{dd}'));
    t.push(("THORN", '\u{de}'));
    t.push(("ssharp", '\u{df}'));
    t.push(("agrave", '\u{e0}'));
    t
}

pub open spec fn name_table_8() -> Seq<(&'static str, char)> {
    seq![
        ("aacute", '\u{e1}'),
        ("acircumflex", '\u{e2}'),
        ("atilde", '\u{e3}'),
        ("adiaeresis", '\u{e4}'),
        ("aring", '\u{e5}'),
        ("ae", '\u{e6}'),
        ("ccedilla", '\u{e7}'),
        ("egrave", '\u{e8}'),
        ("eacute", '\u{e9}'),
        ("ecircumflex", '\u{ea}'),
        ("ediaeresis", '\u{eb}'),
        ("igrave", '\u{ec}'),
        ("iacute", '\u{ed}'),
        ("icircumflex", '\u{ee}'),
        ("idiaeresis", '\u{ef}'),
        ("eth", '\u{f0}'),
        ("ntilde", '\u{f1}'),
        ("ograve", '\u{f2}'),
        ("oacute", '\u{f3}'),
        ("ocircumflex", '\u{f4}'),
    ]
}

fn names_8() -> (t: Vec<(&'static str, char)>)
    ensures
        t@ == name_table_8(),
{
    let mut t: Vec<(&'static str, char)> = Vec::new();
    t.push(("aacute", '\u{e1}'));
    t.push(("acircumflex", '\u{e2}'));
    t.push(("atilde", '\u{e3}'));
    t.push(("adiaeresis", '\u{e4}'));
    t.push(("aring", '\u{e5}'));
    t.push(("ae", '\u{e6}'));
    t.push(("ccedilla", '\u{e7}'));
    t.push(("egrave", '\u{e8}'));
    t.push(("eacute", '\u{e9}'));
    t.push(("ecircumflex", '\u{ea}'));
    t.push(("ediaeresis", '\u{eb}'));
    t.push(("igrave", '\u{ec}'));
    t.push(("iacute", '\u{ed}'));
    t.push(("icircumflex", '\u{ee}'));
    t.push(("idiaeresis", '\u{ef}'));
    t.push(("eth", '\u{f0}'));
    t.push(("ntilde", '\u{f1}'));
    t.push(("ograve", '\u{f2}'));
    t.push(("oacute", '\u{f3}'));
    t.push(("ocircumflex", '\u{f4}'));
    t
}

pub open spec fn name_table_9() -> Seq<(&'static str, char)> {
    seq![
        ("otilde", '\u{f5}'),
        ("odiaeresis", '\u{f6}'),
        ("division", '\u{f7}'),
        ("oslash", '\u{f8}'),
        ("ugrave", '\u{f9}'),
        ("uacute", '\u{fa}'),
        ("ucircumflex", '\u{fb}'),
        ("udiaeresis", '\u{fc}'),
        ("yacute", '\u{fd}'),
        ("thorn", '\u{fe}'),
        ("ydiaeresis", '\u{ff}'),
        ("guillemetleft", '\u{ab}'),
        ("guillemetright", '\u{bb}'),
        ("ordmasculine", '\u{ba}'),
        ("Eth", '\u{d0}'),
        ("Thorn", '\u{de}'),
        ("Ooblique", '\u{d8}'),
        ("ooblique", '\u{f8}'),
        ("BackSpace", '\u{8}'),
        ("Tab", '\u{9}'),
    ]
}

fn names_9() -> (t: Vec<(&'static str, char)>)
    ensures
        t@ == name_table_9(),
{
    let mut t: Vec<(&'static str, char)> = Vec::new();
    t.push(("otilde", '\u{f5}'));
    t.push(("odiaeresis", '\u{f6}'));
    t.push(("division", '\u{f7}'));
    t.push(("oslash", '\u{f8}'));
    t.push(("ugrave", '\u{f9}'));
    t.push(("uacute", '\u{fa}'));
    t.push(("ucircumflex", '\u{fb}'));
    t.push(("udiaeresis", '\u{fc}'));
    t.push(("yacute", '\u{fd}'));
    t.push(("thorn", '\u{fe}'));
    t.push(("ydiaeresis", '\u{ff}'));
    t.push(("guillemetleft", '\u{ab}'));
    t.push(("guillemetright", '\u{bb}'));
    t.push(("ordmasculine", '\u{ba}'));
    t.push(("Eth", '\u{d0}'));
    t.push(("Thorn", '\u{de}'));
    t.push(("Ooblique", '\u{d8}'));
    t.push(("ooblique", '\u{f8}'));
    t.push(("BackSpace", '\u{8}'));
    t.push(("Tab", '\u{9}'));
    t
}

pub open spec fn name_table_10() -> Seq<(&'static str, char)> {
    seq![
        ("Linefeed", '\u{a}'),
        ("Return", '\u{d}'),
        ("Escape", '\u{1b}'),
        ("Delete", '\u{7f}'),
        ("EuroSign", '\u{20ac}'),
    ]
}

fn names_10() -> (t: Vec<(&'static str, char)>)
    ensures
        t@ == name_table_10(),
{
    let mut t: Vec<(&'static str, char)> = Vec::new();
    t.push(("Linefeed", '\u{a}'));
    t.push(("Return", '\u{d}'));
    t.push(("Escape", '\u{1b}'));
    t.push(("Delete", '\u{7f}'));
    t.push(("EuroSign", '\u{20ac}'));
    t
}

fn names() -> (t: Vec<(&'static str, char)>)
    ensures
        t@ == name_table(),
{
    let mut t = names_0();
    let mut c = names_1();
    t.append(&mut c);
    let mut c = names_2();
    t.append(&mut c);
    let mut c = names_3();
    t.append(&mut c);
    let mut c = names_4();
    t.append(&mut c);
    let mut c = names_5();
    t.append(&mut c);
    let mut c = names_6();
    t.append(&mut c);
    let mut c = names_7();
    t.append(&mut c);
    let mut c = names_8();
    t.append(&mut c);
    let mut c = names_9();
    t.append(&mut c);
    let mut c = names_10();
    t.append(&mut c);
    t
}

/// Dead keysyms: the character typed alone and the combining mark.
pub open spec fn dead_table() -> Seq<(&'static str, char, char)> {
    dead_table_0()
}

pub open spec fn dead_table_0() -> Seq<(&'static str, char, char)> {
    seq![
        ("dead_grave", '\u{60}', '\u{300}'),
        ("dead_acute", '\u{b4}', '\u{301}'),
        ("dead_circumflex", '\u{5e}', '\u{302}'),
        ("dead_tilde", '\u{7e}', '\u{303}'),
        ("dead_macron", '\u{af}', '\u{304}'),
        ("dead_breve", '\u{2d8}', '\u{306}'),
        ("dead_abovedot", '\u{2d9}', '\u{307}'),
        ("dead_diaeresis", '\u{a8}', '\u{308}'),
        ("dead_abovering", '\u{2da}', '\u{30a}'),
        ("dead_doubleacute", '\u{2dd}', '\u{30b}'),
        ("dead_caron", '\u{2c7}', '\u{30c}'),
        ("dead_cedilla", '\u{b8}', '\u{327}'),
        ("dead_ogonek", '\u{2db}', '\u{328}'),
    ]
}

fn deads_0() -> (t: Vec<(&'static str, char, char)>)
    ensures
        t@ == dead_table_0(),
{
    let mut t: Vec<(&'static str, char, char)> = Vec::new();
    t.push(("dead_grave", '\u{60}', '\u{300}'));
    t.push(("dead_acute", '\u{b4}', '\u{301}'));
    t.push(("dead_circumflex", '\u{5e}', '\u{302}'));
    t.push(("dead_tilde", '\u{7e}', '\u{303}'));
    t.push(("dead_macron", '\u{af}', '\u{304}'));
    t.push(("dead_breve", '\u{2d8}', '\u{306}'));
    t.push(("dead_abovedot", '\u{2d9}', '\u{307}'));
    t.push(("dead_diaeresis", '\u{a8}', '\u{308}'));
    t.push(("dead_abovering", '\u{2da}', '\u{30a}'));
    t.push(("dead_doubleacute", '\u{2dd}', '\u{30b}'));
    t.push(("dead_caron", '\u{2c7}', '\u{30c}'));
    t.push(("dead_cedilla", '\u{b8}', '\u{327}'));
    t.push(("dead_ogonek", '\u{2db}', '\u{328}'));
    t
}

fn deads() -> (t: Vec<(&'static str, char, char)>)
    ensures
        t@ == dead_table(),
{
    let mut t = deads_0();
    t
}

/// Base letter, combining mark, and the precomposed character.
pub open spec fn compose_table() -> Seq<(char, char, char)> {
    compose_table_0() + compose_table_1() + compose_table_2() + compose_table_3() + compose_table_4() + compose_table_5() + compose_table_6() + compose_table_7() + compose_table_8() + compose_table_9() + compose_table_10() + compose_table_11() + compose_table_12()
}

pub open spec fn compose_table_0() -> Seq<(char, char, char)> {
    seq![
        ('\u{41}', '\u{300}', '\u{c0}'),
        ('\u{41}', '\u{301}', '\u{c1}'),
        ('\u{41}', '\u{302}', '\u{c2}'),
        ('\u{41}', '\u{303}', '\u{c3}'),
        ('\u{41}', '\u{304}', '\u{100}'),
        ('\u{41}', '\u{306}', '\u{102}'),
        ('\u{41}', '\u{307}', '\u{226}'),
        ('\u{41}', '\u{308}', '\u{c4}'),
        ('\u{41}', '\u{30a}', '\u{c5}'),
        ('\u{41}', '\u{30c}', '\u{1cd}'),
        ('\u{41}', '\u{328}', '\u{104}'),
        ('\u{42}', '\u{307}', '\u{1e02}'),
        ('\u{43}', '\u{301}', '\u{106}'),
        ('\u{43}', '\u{302}', '\u{108}'),
        ('\u{43}', '\u{307}', '\u{10a}'),
        ('\u{43}', '\u{30c}', '\u{10c}'),
        ('\u{43}', '\u{327}', '\u{c7}'),
        ('\u{44}', '\u{307}', '\u{1e0a}'),
        ('\u{44}', '\u{30c}', '\u{10e}'),
        ('\u{44}', '\u{327}', '\u{1e10}'),
    ]
}

fn compositions_0() -> (t: Vec<(char, char, char)>)
    ensures
        t@ == compose_table_0(),
{
    let mut t: Vec<(char, char, char)> = Vec::new();
    t.push(('\u{41}', '\u{300}', '\u{c0}'));
    t.push(('\u{41}', '\u{301}', '\u{c1}'));
    t.push(('\u{41}', '\u{302}', '\u{c2}'));
    t.push(('\u{41}', '\u{303}', '\u{c3}'));
    t.push(('\u{41}', '\u{304}', '\u{100}'));
    t.push(('\u{41}', '\u{306}', '\u{102}'));
    t.push(('\u{41}', '\u{307}', '\u{226}'));
    t.push(('\u{41}', '\u{308}', '\u{c4}'));
    t.push(('\u{41}', '\u{30a}', '\u{c5}'));
    t.push(('\u{41}', '\u{30c}', '\u{1cd}'));
    t.push(('\u{41}', '\u{328}', '\u{104}'));
    t.push(('\u{42}', '\u{307}', '\u{1e02}'));
    t.push(('\u{43}', '\u{301}', '\u{106}'));
    t.push(('\u{43}', '\u{302}', '\u{108}'));
    t.push(('\u{43}', '\u{307}', '\u{10a}'));
    t.push(('\u{43}', '\u{30c}', '\u{10c}'));
    t.push(('\u{43}', '\u{327}', '\u{c7}'));
    t.push(('\u{44}', '\u{307}', '\u{1e0a}'));
    t.push(('\u{44}', '\u{30c}', '\u{10e}'));
    t.push(('\u{44}', '\u{327}', '\u{1e10}'));
    t
}

pub open spec fn compose_table_1() -> Seq<(char, char, char)> {
    seq![
        ('\u{45}', '\u{300}', '\u{c8}'),
        ('\u{45}', '\u{301}', '\u{c9}'),
        ('\u{45}', '\u{302}', '\u{ca}'),
        ('\u{45}', '\u{303}', '\u{1ebc}'),
        ('\u{45}', '\u{304}', '\u{112}'),
        ('\u{45}', '\u{306}', '\u{114}'),
        ('\u{45}', '\u{307}', '\u{116}'),
        ('\u{45}', '\u{308}', '\u{cb}'),
        ('\u{45}', '\u{30c}', '\u{11a}'),
        ('\u{45}', '\u{327}', '\u{228}'),
        ('\u{45}', '\u{328}', '\u{118}'),
        ('\u{46}', '\u{307}', '\u{1e1e}'),
        ('\u{47}', '\u{301}', '\u{1f4}'),
        ('\u{47}', '\u{302}', '\u{11c}'),
        ('\u{47}', '\u{304}', '\u{1e20}'),
        ('\u{47}', '\u{306}', '\u{11e}'),
        ('\u{47}', '\u{307}', '\u{120}'),
        ('\u{47}', '\u{30c}', '\u{1e6}'),
        ('\u{47}', '\u{327}', '\u{122}'),
        ('\u{48}', '\u{302}', '\u{124}'),
    ]
}

fn compositions_1() -> (t: Vec<(char, char, char)>)
    ensures
        t@ == compose_table_1(),
{
    let mut t: Vec<(char, char, char)> = Vec::new();
    t.push(('\u{45}', '\u{300}', '\u{c8}'));
    t.push(('\u{45}', '\u{301}', '\u{c9}'));
    t.push(('\u{45}', '\u{302}', '\u{ca}'));
    t.push(('\u{45}', '\u{303}', '\u{1ebc}'));
    t.push(('\u{45}', '\u{304}', '\u{112}'));
    t.push(('\u{45}', '\u{306}', '\u{114}'));
    t.push(('\u{45}', '\u{307}', '\u{116}'));
    t.push(('\u{45}', '\u{308}', '\u{cb}'));
    t.push(('\u{45}', '\u{30c}', '\u{11a}'));
    t.push(('\u{45}', '\u{327}', '\u{228}'));
    t.push(('\u{45}', '\u{328}', '\u{118}'));
    t.push(('\u{46}', '\u{307}', '\u{1e1e}'));
    t.push(('\u{47}', '\u{301}', '\u{1f4}'));
    t.push(('\u{47}', '\u{302}', '\u{11c}'));
    t.push(('\u{47}', '\u{304}', '\u{1e20}'));
    t.push(('\u{47}', '\u{306}', '\u{11e}'));
    t.push(('\u{47}', '\u{307}', '\u{120}'));
    t.push(('\u{47}', '\u{30c}', '\u{1e6}'));
    t.push(('\u{47}', '\u{327}', '\u{122}'));
    t.push(('\u{48}', '\u{302}', '\u{124}'));
    t
}

pub open spec fn compose_table_2() -> Seq<(char, char, char)> {
    seq![
        ('\u{48}', '\u{307}', '\u{1e22}'),
        ('\u{48}', '\u{308}', '\u{1e26}'),
        ('\u{48}', '\u{30c}', '\u{21e}'),
        ('\u{48}', '\u{327}', '\u{1e28}'),
        ('\u{49}', '\u{300}', '\u{cc}'),
        ('\u{49}', '\u{301}', '\u{cd}'),
        ('\u{49}', '\u{302}', '\u{ce}'),
        ('\u{49}', '\u{303}', '\u{128}'),
        ('\u{49}', '\u{304}', '\u{12a}'),
        ('\u{49}', '\u{306}', '\u{12c}'),
        ('\u{49}', '\u{307}', '\u{130}'),
        ('\u{49}', '\u{308}', '\u{cf}'),
        ('\u{49}', '\u{30c}', '\u{1cf}'),
        ('\u{49}', '\u{328}', '\u{12e}'),
        ('\u{4a}', '\u{302}', '\u{134}'),
        ('\u{4b}', '\u{301}', '\u{1e30}'),
        ('\u{4b}', '\u{30c}', '\u{1e8}'),
        ('\u{4b}', '\u{327}', '\u{136}'),
        ('\u{4c}', '\u{301}', '\u{139}'),
        ('\u{4c}', '\u{30c}', '\u{13d}'),
    ]
}

fn compositions_2() -> (t: Vec<(char, char, char)>)
    ensures
        t@ == compose_table_2(),
{
    let mut t: Vec<(char, char, char)> = Vec::new();
    t.push(('\u{48}', '\u{307}', '\u{1e22}'));
    t.push(('\u{48}', '\u{308}', '\u{1e26}'));
    t.push(('\u{48}', '\u{30c}', '\u{21e}'));
    t.push(('\u{48}', '\u{327}', '\u{1e28}'));
    t.push(('\u{49}', '\u{300}', '\u{cc}'));
    t.push(('\u{49}', '\u{301}', '\u{cd}'));
    t.push(('\u{49}', '\u{302}', '\u{ce}'));
    t.push(('\u{49}', '\u{303}', '\u{128}'));
    t.push(('\u{49}', '\u{304}', '\u{12a}'));
    t.push(('\u{49}', '\u{306}', '\u{12c}'));
    t.push(('\u{49}', '\u{307}', '\u{130}'));
    t.push(('\u{49}', '\u{308}', '\u{cf}'));
    t.push(('\u{49}', '\u{30c}', '\u{1cf}'));
    t.push(('\u{49}', '\u{328}', '\u{12e}'));
    t.push(('\u{4a}', '\u{302}', '\u{134}'));
    t.push(('\u{4b}', '\u{301}', '\u{1e30}'));
    t.push(('\u{4b}', '\u{30c}', '\u{1e8}'));
    t.push(('\u{4b}', '\u{327}', '\u{136}'));
    t.push(('\u{4c}', '\u{301}', '\u{139}'));
    t.push(('\u{4c}', '\u{30c}', '\u{13d}'));
    t
}

pub open spec fn compose_table_3() -> Seq<(char, char, char)> {
    seq![
        ('\u{4c}', '\u{327}', '\u{13b}'),
        ('\u{4d}', '\u{301}', '\u{1e3e}'),
        ('\u{4d}', '\u{307}', '\u{1e40}'),
        ('\u{4e}', '\u{300}', '\u{1f8}'),
        ('\u{4e}', '\u{301}', '\u{143}'),
        ('\u{4e}', '\u{303}', '\u{d1}'),
        ('\u{4e}', '\u{307}', '\u{1e44}'),
        ('\u{4e}', '\u{30c}', '\u{147}'),
        ('\u{4e}', '\u{327}', '\u{145}'),
        ('\u{4f}', '\u{300}', '\u{d2}'),
        ('\u{4f}', '\u{301}', '\u{d3}'),
        ('\u{4f}', '\u{302}', '\u{d4}'),
        ('\u{4f}', '\u{303}', '\u{d5}'),
        ('\u{4f}', '\u{304}', '\u{14c}'),
        ('\u{4f}', '\u{306}', '\u{14e}'),
        ('\u{4f}', '\u{307}', '\u{22e}'),
        ('\u{4f}', '\u{308}', '\u{d6}'),
        ('\u{4f}', '\u{30b}', '\u{150}'),
        ('\u{4f}', '\u{30c}', '\u{1d1}'),
        ('\u{4f}', '\u{328}', '\u{1ea}'),
    ]
}

fn compositions_3() -> (t: Vec<(char, char, char)>)
    ensures
        t@ == compose_table_3(),
{
    let mut t: Vec<(char, char, char)> = Vec::new();
    t.push(('\u{4c}', '\u{327}', '\u{13b}'));
    t.push(('\u{4d}', '\u{301}', '\u{1e3e}'));
    t.push(('\u{4d}', '\u{307}', '\u{1e40}'));
    t.push(('\u{4e}', '\u{300}', '\u{1f8}'));
    t.push(('\u{4e}', '\u{301}', '\u{143}'));
    t.push(('\u{4e}', '\u{303}', '\u{d1}'));
    t.push(('\u{4e}', '\u{307}', '\u{1e44}'));
    t.push(('\u{4e}', '\u{30c}', '\u{147}'));
    t.push(('\u{4e}', '\u{327}', '\u{145}'));
    t.push(('\u{4f}', '\u{300}', '\u{d2}'));
    t.push(('\u{4f}', '\u{301}', '\u{d3}'));
    t.push(('\u{4f}', '\u{302}', '\u{d4}'));
    t.push(('\u{4f}', '\u{303}', '\u{d5}'));
    t.push(('\u{4f}', '\u{304}', '\u{14c}'));
    t.push(('\u{4f}', '\u{306}', '\u{14e}'));
    t.push(('\u{4f}', '\u{307}', '\u{22e}'));
    t.push(('\u{4f}', '\u{308}', '\u{d6}'));
    t.push(('\u{4f}', '\u{30b}', '\u{150}'));
    t.push(('\u{4f}', '\u{30c}', '\u{1d1}'));
    t.push(('\u{4f}', '\u{328}', '\u{1ea}'));
    t
}

pub open spec fn compose_table_4() -> Seq<(char, char, char)> {
    seq![
        ('\u{50}', '\u{301}', '\u{1e54}'),
        ('\u{50}', '\u{307}', '\u{1e56}'),
        ('\u{52}', '\u{301}', '\u{154}'),
        ('\u{52}', '\u{307}', '\u{1e58}'),
        ('\u{52}', '\u{30c}', '\u{158}'),
        ('\u{52}', '\u{327}', '\u{156}'),
        ('\u{53}', '\u{301}', '\u{15a}'),
        ('\u{53}', '\u{302}', '\u{15c}'),
        ('\u{53}', '\u{307}', '\u{1e60}'),
        ('\u{53}', '\u{30c}', '\u{160}'),
        ('\u{53}', '\u{327}', '\u{15e}'),
        ('\u{54}', '\u{307}', '\u{1e6a}'),
        ('\u{54}', '\u{30c}', '\u{164}'),
        ('\u{54}', '\u{327}', '\u{162}'),
        ('\u{55}', '\u{300}', '\u{d9}'),
        ('\u{55}', '\u{301}', '\u{da}'),
        ('\u{55}', '\u{302}', '\u{db}'),
        ('\u{55}', '\u{303}', '\u{168}'),
        ('\u{55}', '\u{304}', '\u{16a}'),
        ('\u{55}', '\u{306}', '\u{16c}'),
    ]
}

fn compositions_4() -> (t: Vec<(char, char, char)>)
    ensures
        t@ == compose_table_4(),
{
    let mut t: Vec<(char, char, char)> = Vec::new();
    t.push(('\u{50}', '\u{301}', '\u{1e54}'));
    t.push(('\u{50}', '\u{307}', '\u{1e56}'));
    t.push(('\u{52}', '\u{301}', '\u{154}'));
    t.push(('\u{52}', '\u{307}', '\u{1e58}'));
    t.push(('\u{52}', '\u{30c}', '\u{158}'));
    t.push(('\u{52}', '\u{327}', '\u{156}'));
    t.push(('\u{53}', '\u{301}', '\u{15a}'));
    t.push(('\u{53}', '\u{302}', '\u{15c}'));
    t.push(('\u{53}', '\u{307}', '\u{1e60}'));
    t.push(('\u{53}', '\u{30c}', '\u{160}'));
    t.push(('\u{53}', '\u{327}', '\u{15e}'));
    t.push(('\u{54}', '\u{307}', '\u{1e6a}'));
    t.push(('\u{54}', '\u{30c}', '\u{164}'));
    t.push(('\u{54}', '\u{327}', '\u{162}'));
    t.push(('\u{55}', '\u{300}', '\u{d9}'));
    t.push(('\u{55}', '\u{301}', '\u{da}'));
    t.push(('\u{55}', '\u{302}', '\u{db}'));
    t.push(('\u{55}', '\u{303}', '\u{168}'));
    t.push(('\u{55}', '\u{304}', '\u{16a}'));
    t.push(('\u{55}', '\u{306}', '\u{16c}'));
    t
}

pub open spec fn compose_table_5() -> Seq<(char, char, char)> {
    seq![
        ('\u{55}', '\u{308}', '\u{dc}'),
        ('\u{55}', '\u{30a}', '\u{16e}'),
        ('\u{55}', '\u{30b}', '\u{170}'),
        ('\u{55}', '\u{30c}', '\u{1d3}'),
        ('\u{55}', '\u{328}', '\u{172}'),
        ('\u{56}', '\u{303}', '\u{1e7c}'),
        ('\u{57}', '\u{300}', '\u{1e80}'),
        ('\u{57}', '\u{301}', '\u{1e82}'),
        ('\u{57}', '\u{302}', '\u{174}'),
        ('\u{57}', '\u{307}', '\u{1e86}'),
        ('\u{57}', '\u{308}', '\u{1e84}'),
        ('\u{58}', '\u{307}', '\u{1e8a}'),
        ('\u{58}', '\u{308}', '\u{1e8c}'),
        ('\u{59}', '\u{300}', '\u{1ef2}'),
        ('\u{59}', '\u{301}', '\u{dd}'),
        ('\u{59}', '\u{302}', '\u{176}'),
        ('\u{59}', '\u{303}', '\u{1ef8}'),
        ('\u{59}', '\u{304}', '\u{232}'),
        ('\u{59}', '\u{307}', '\u{1e8e}'),
        ('\u{59}', '\u{308}', '\u{178}'),
    ]
}

fn compositions_5() -> (t: Vec<(char, char, char)>)
    ensures
        t@ == compose_table_5(),
{
    let mut t: Vec<(char, char, char)> = Vec::new();
    t.push(('\u{55}', '\u{308}', '\u{dc}'));
    t.push(('\u{55}', '\u{30a}', '\u{16e}'));
    t.push(('\u{55}', '\u{30b}', '\u{170}'));
    t.push(('\u{55}', '\u{30c}', '\u{1d3}'));
    t.push(('\u{55}', '\u{328}', '\u{172}'));
    t.push(('\u{56}', '\u{303}', '\u{1e7c}'));
    t.push(('\u{57}', '\u{300}', '\u{1e80}'));
    t.push(('\u{57}', '\u{301}', '\u{1e82}'));
    t.push(('\u{57}', '\u{302}', '\u{174}'));
    t.push(('\u{57}', '\u{307}', '\u{1e86}'));
    t.push(('\u{57}', '\u{308}', '\u{1e84}'));
    t.push(('\u{58}', '\u{307}', '\u{1e8a}'));
    t.push(('\u{58}', '\u{308}', '\u{1e8c}'));
    t.push(('\u{59}', '\u{300}', '\u{1ef2}'));
    t.push(('\u{59}', '\u{301}', '\u{dd}'));
    t.push(('\u{59}', '\u{302}', '\u{176}'));
    t.push(('\u{59}', '\u{303}', '\u{1ef8}'));
    t.push(('\u{59}', '\u{304}', '\u{232}'));
    t.push(('\u{59}', '\u{307}', '\u{1e8e}'));
    t.push(('\u{59}', '\u{308}', '\u{178}'));
    t
}

pub open spec fn compose_table_6() -> Seq<(char, char, char)> {
    seq![
        ('\u{5a}', '\u{301}', '\u{179}'),
        ('\u{5a}', '\u{302}', '\u{1e90}'),
        ('\u{5a}', '\u{307}', '\u{17b}'),
        ('\u{5a}', '\u{30c}', '\u{17d}'),
        ('\u{61}', '\u{300}', '\u{e0}'),
        ('\u{61}', '\u{301}', '\u{e1}'),
        ('\u{61}', '\u{302}', '\u{e2}'),
        ('\u{61}', '\u{303}', '\u{e3}'),
        ('\u{61}', '\u{304}', '\u{101}'),
        ('\u{61}', '\u{306}', '\u{103}'),
        ('\u{61}', '\u{307}', '\u{227}'),
        ('\u{61}', '\u{308}', '\u{e4}'),
        ('\u{61}', '\u{30a}', '\u{e5}'),
        ('\u{61}', '\u{30c}', '\u{1ce}'),
        ('\u{61}', '\u{328}', '\u{105}'),
        ('\u{62}', '\u{307}', '\u{1e03}'),
        ('\u{63}', '\u{301}', '\u{107}'),
        ('\u{63}', '\u{302}', '\u{109}'),
        ('\u{63}', '\u{307}', '\u{10b}'),
        ('\u{63}', '\u{30c}', '\u{10d}'),
    ]
}

fn compositions_6() -> (t: Vec<(char, char, char)>)
    ensures
        t@ == compose_table_6(),
{
    let mut t: Vec<(char, char, char)> = Vec::new();
    t.push(('\u{5a}', '\u{301}', '\u{179}'));
    t.push(('\u{5a}', '\u{302}', '\u{1e90}'));
    t.push(('\u{5a}', '\u{307}', '\u{17b}'));
    t.push(('\u{5a}', '\u{30c}', '\u{17d}'));
    t.push(('\u{61}', '\u{300}', '\u{e0}'));
    t.push(('\u{61}', '\u{301}', '\u{e1}'));
    t.push(('\u{61}', '\u{302}', '\u{e2}'));
    t.push(('\u{61}', '\u{303}', '\u{e3}'));
    t.push(('\u{61}', '\u{304}', '\u{101}'));
    t.push(('\u{61}', '\u{306}', '\u{103}'));
    t.push(('\u{61}', '\u{307}', '\u{227}'));
    t.push(('\u{61}', '\u{308}', '\u{e4}'));
    t.push(('\u{61}', '\u{30a}', '\u{e5}'));
    t.push(('\u{61}', '\u{30c}', '\u{1ce}'));
    t.push(('\u{61}', '\u{328}', '\u{105}'));
    t.push(('\u{62}', '\u{307}', '\u{1e03}'));
    t.push(('\u{63}', '\u{301}', '\u{107}'));
    t.push(('\u{63}', '\u{302}', '\u{109}'));
    t.push(('\u{63}', '\u{307}', '\u{10b}'));
    t.push(('\u{63}', '\u{30c}', '\u{10d}'));
    t
}

pub open spec fn compose_table_7() -> Seq<(char, char, char)> {
    seq![
        ('\u{63}', '\u{327}', '\u{e7}'),
        ('\u{64}', '\u{307}', '\u{1e0b}'),
        ('\u{64}', '\u{30c}', '\u{10f}'),
        ('\u{64}', '\u{327}', '\u{1e11}'),
        ('\u{65}', '\u{300}', '\u{e8}'),
        ('\u{65}', '\u{301}', '\u{e9}'),
        ('\u{65}', '\u{302}', '\u{ea}'),
        ('\u{65}', '\u{303}', '\u{1ebd}'),
        ('\u{65}', '\u{304}', '\u{113}'),
        ('\u{65}', '\u{306}', '\u{115}'),
        ('\u{65}', '\u{307}', '\u{117}'),
        ('\u{65}', '\u{308}', '\u{eb}'),
        ('\u{65}', '\u{30c}', '\u{11b}'),
        ('\u{65}', '\u{327}', '\u{229}'),
        ('\u{65}', '\u{328}', '\u{119}'),
        ('\u{66}', '\u{307}', '\u{1e1f}'),
        ('\u{67}', '\u{301}', '\u{1f5}'),
        ('\u{67}', '\u{302}', '\u{11d}'),
        ('\u{67}', '\u{304}', '\u{1e21}'),
        ('\u{67}', '\u{306}', '\u{11f}'),
    ]
}

fn compositions_7() -> (t: Vec<(char, char, char)>)
    ensures
        t@ == compose_table_7(),
{
    let mut t: Vec<(char, char, char)> = Vec::new();
    t.push(('\u{63}', '\u{327}', '\u{e7}'));
    t.push(('\u{64}', '\u{307}', '\u{1e0b}'));
    t.push(('\u{64}', '\u{30c}', '\u{10f}'));
    t.push(('\u{64}', '\u{327}', '\u{1e11}'));
    t.push(('\u{65}', '\u{300}', '\u{e8}'));
    t.push(('\u{65}', '\u{301}', '\u{e9}'));
    t.push(('\u{65}', '\u{302}', '\u{ea}'));
    t.push(('\u{65}', '\u{303}', '\u{1ebd}'));
    t.push(('\u{65}', '\u{304}', '\u{113}'));
    t.push(('\u{65}', '\u{306}', '\u{115}'));
    t.push(('\u{65}', '\u{307}', '\u{117}'));
    t.push(('\u{65}', '\u{308}', '\u{eb}'));
    t.push(('\u{65}', '\u{30c}', '\u{11b}'));
    t.push(('\u{65}', '\u{327}', '\u{229}'));
    t.push(('\u{65}', '\u{328}', '\u{119}'));
    t.push(('\u{66}', '\u{307}', '\u{1e1f}'));
    t.push(('\u{67}', '\u{301}', '\u{1f5}'));
    t.push(('\u{67}', '\u{302}', '\u{11d}'));
    t.push(('\u{67}', '\u{304}', '\u{1e21}'));
    t.push(('\u{67}', '\u{306}', '\u{11f}'));
    t
}

pub open spec fn compose_table_8() -> Seq<(char, char, char)> {
    seq![
        ('\u{67}', '\u{307}', '\u{121}'),
        ('\u{67}', '\u{30c}', '\u{1e7}'),
        ('\u{67}', '\u{327}', '\u{123}'),
        ('\u{68}', '\u{302}', '\u{125}'),
        ('\u{68}', '\u{307}', '\u{1e23}'),
        ('\u{68}', '\u{308}', '\u{1e27}'),
        ('\u{68}', '\u{30c}', '\u{21f}'),
        ('\u{68}', '\u{327}', '\u{1e29}'),
        ('\u{69}', '\u{300}', '\u{ec}'),
        ('\u{69}', '\u{301}', '\u{ed}'),
        ('\u{69}', '\u{302}', '\u{ee}'),
        ('\u{69}', '\u{303}', '\u{129}'),
        ('\u{69}', '\u{304}', '\u{12b}'),
        ('\u{69}', '\u{306}', '\u{12d}'),
        ('\u{69}', '\u{308}', '\u{ef}'),
        ('\u{69}', '\u{30c}', '\u{1d0}'),
        ('\u{69}', '\u{328}', '\u{12f}'),
        ('\u{6a}', '\u{302}', '\u{135}'),
        ('\u{6a}', '\u{30c}', '\u{1f0}'),
        ('\u{6b}', '\u{301}', '\u{1e31}'),
    ]
}

fn compositions_8() -> (t: Vec<(char, char, char)>)
    ensures
        t@ == compose_table_8(),
{
    let mut t: Vec<(char, char, char)> = Vec::new();
    t.push(('\u{67}', '\u{307}', '\u{121}'));
    t.push(('\u{67}', '\u{30c}', '\u{1e7}'));
    t.push(('\u{67}', '\u{327}', '\u{123}'));
    t.push(('\u{68}', '\u{302}', '\u{125}'));
    t.push(('\u{68}', '\u{307}', '\u{1e23}'));
    t.push(('\u{68}', '\u{308}', '\u{1e27}'));
    t.push(('\u{68}', '\u{30c}', '\u{21f}'));
    t.push(('\u{68}', '\u{327}', '\u{1e29}'));
    t.push(('\u{69}', '\u{300}', '\u{ec}'));
    t.push(('\u{69}', '\u{301}', '\u{ed}'));
    t.push(('\u{69}', '\u{302}', '\u{ee}'));
    t.push(('\u{69}', '\u{303}', '\u{129}'));
    t.push(('\u{69}', '\u{304}', '\u{12b}'));
    t.push(('\u{69}', '\u{306}', '\u{12d}'));
    t.push(('\u{69}', '\u{308}', '\u{ef}'));
    t.push(('\u{69}', '\u{30c}', '\u{1d0}'));
    t.push(('\u{69}', '\u{328}', '\u{12f}'));
    t.push(('\u{6a}', '\u{302}', '\u{135}'));
    t.push(('\u{6a}', '\u{30c}', '\u{1f0}'));
    t.push(('\u{6b}', '\u{301}', '\u{1e31}'));
    t
}

pub open spec fn compose_table_9() -> Seq<(char, char, char)> {
    seq![
        ('\u{6b}', '\u{30c}', '\u{1e9}'),
        ('\u{6b}', '\u{327}', '\u{137}'),
        ('\u{6c}', '\u{301}', '\u{13a}'),
        ('\u{6c}', '\u{30c}', '\u{13e}'),
        ('\u{6c}', '\u{327}', '\u{13c}'),
        ('\u{6d}', '\u{301}', '\u{1e3f}'),
        ('\u{6d}', '\u{307}', '\u{1e41}'),
        ('\u{6e}', '\u{300}', '\u{1f9}'),
        ('\u{6e}', '\u{301}', '\u{144}'),
        ('\u{6e}', '\u{303}', '\u{f1}'),
        ('\u{6e}', '\u{307}', '\u{1e45}'),
        ('\u{6e}', '\u{30c}', '\u{148}'),
        ('\u{6e}', '\u{327}', '\u{146}'),
        ('\u{6f}', '\u{300}', '\u{f2}'),
        ('\u{6f}', '\u{301}', '\u{f3}'),
        ('\u{6f}', '\u{302}', '\u{f4}'),
        ('\u{6f}', '\u{303}', '\u{f5}'),
        ('\u{6f}', '\u{304}', '\u{14d}'),
        ('\u{6f}', '\u{306}', '\u{14f}'),
        ('\u{6f}', '\u{307}', '\u{22f}'),
    ]
}

fn compositions_9() -> (t: Vec<(char, char, char)>)
    ensures
        t@ == compose_table_9(),
{
    let mut t: Vec<(char, char, char)> = Vec::new();
    t.push(('\u{6b}', '\u{30c}', '\u{1e9}'));
    t.push(('\u{6b}', '\u{327}', '\u{137}'));
    t.push(('\u{6c}', '\u{301}', '\u{13a}'));
    t.push(('\u{6c}', '\u{30c}', '\u{13e}'));
    t.push(('\u{6c}', '\u{327}', '\u{13c}'));
    t.push(('\u{6d}', '\u{301}', '\u{1e3f}'));
    t.push(('\u{6d}', '\u{307}', '\u{1e41}'));
    t.push(('\u{6e}', '\u{300}', '\u{1f9}'));
    t.push(('\u{6e}', '\u{301}', '\u{144}'));
    t.push(('\u{6e}', '\u{303}', '\u{f1}'));
    t.push(('\u{6e}', '\u{307}', '\u{1e45}'));
    t.push(('\u{6e}', '\u{30c}', '\u{148}'));
    t.push(('\u{6e}', '\u{327}', '\u{146}'));
    t.push(('\u{6f}', '\u{300}', '\u{f2}'));
    t.push(('\u{6f}', '\u{301}', '\u{f3}'));
    t.push(('\u{6f}', '\u{302}', '\u{f4}'));
    t.push(('\u{6f}', '\u{303}', '\u{f5}'));
    t.push(('\u{6f}', '\u{304}', '\u{14d}'));
    t.push(('\u{6f}', '\u{306}', '\u{14f}'));
    t.push(('\u{6f}', '\u{307}', '\u{22f}'));
    t
}

pub open spec fn compose_table_10() -> Seq<(char, char, char)> {
    seq![
        ('\u{6f}', '\u{308}', '\u{f6}'),
        ('\u{6f}', '\u{30b}', '\u{151}'),
        ('\u{6f}', '\u{30c}', '\u{1d2}'),
        ('\u{6f}', '\u{328}', '\u{1eb}'),
        ('\u{70}', '\u{301}', '\u{1e55}'),
        ('\u{70}', '\u{307}', '\u{1e57}'),
        ('\u{72}', '\u{301}', '\u{155}'),
        ('\u{72}', '\u{307}', '\u{1e59}'),
        ('\u{72}', '\u{30c}', '\u{159}'),
        ('\u{72}', '\u{327}', '\u{157}'),
        ('\u{73}', '\u{301}', '\u{15b}'),
        ('\u{73}', '\u{302}', '\u{15d}'),
        ('\u{73}', '\u{307}', '\u{1e61}'),
        ('\u{73}', '\u{30c}', '\u{161}'),
        ('\u{73}', '\u{327}', '\u{15f}'),
        ('\u{74}', '\u{307}', '\u{1e6b}'),
        ('\u{74}', '\u{308}', '\u{1e97}'),
        ('\u{74}', '\u{30c}', '\u{165}'),
        ('\u{74}', '\u{327}', '\u{163}'),
        ('\u{75}', '\u{300}', '\u{f9}'),
    ]
}

fn compositions_10() -> (t: Vec<(char, char, char)>)
    ensures
        t@ == compose_table_10(),
{
    let mut t: Vec<(char, char, char)> = Vec::new();
    t.push(('\u{6f}', '\u{308}', '\u{f6}'));
    t.push(('\u{6f}', '\u{30b}', '\u{151}'));
    t.push(('\u{6f}', '\u{30c}', '\u{1d2}'));
    t.push(('\u{6f}', '\u{328}', '\u{1eb}'));
    t.push(('\u{70}', '\u{301}', '\u{1e55}'));
    t.push(('\u{70}', '\u{307}', '\u{1e57}'));
    t.push(('\u{72}', '\u{301}', '\u{155}'));
    t.push(('\u{72}', '\u{307}', '\u{1e59}'));
    t.push(('\u{72}', '\u{30c}', '\u{159}'));
    t.push(('\u{72}', '\u{327}', '\u{157}'));
    t.push(('\u{73}', '\u{301}', '\u{15b}'));
    t.push(('\u{73}', '\u{302}', '\u{15d}'));
    t.push(('\u{73}', '\u{307}', '\u{1e61}'));
    t.push(('\u{73}', '\u{30c}', '\u{161}'));
    t.push(('\u{73}', '\u{327}', '\u{15f}'));
    t.push(('\u{74}', '\u{307}', '\u{1e6b}'));
    t.push(('\u{74}', '\u{308}', '\u{1e97}'));
    t.push(('\u{74}', '\u{30c}', '\u{165}'));
    t.push(('\u{74}', '\u{327}', '\u{163}'));
    t.push(('\u{75}', '\u{300}', '\u{f9}'));
    t
}

pub open spec fn compose_table_11() -> Seq<(char, char, char)> {
    seq![
        ('\u{75}', '\u{301}', '\u{fa}'),
        ('\u{75}', '\u{302}', '\u{fb}'),
        ('\u{75}', '\u{303}', '\u{169}'),
        ('\u{75}', '\u{304}', '\u{16b}'),
        ('\u{75}', '\u{306}', '\u{16d}'),
        ('\u{75}', '\u{308}', '\u{fc}'),
        ('\u{75}', '\u{30a}', '\u{16f}'),
        ('\u{75}', '\u{30b}', '\u{171}'),
        ('\u{75}', '\u{30c}', '\u{1d4}'),
        ('\u{75}', '\u{328}', '\u{173}'),
        ('\u{76}', '\u{303}', '\u{1e7d}'),
        ('\u{77}', '\u{300}', '\u{1e81}'),
        ('\u{77}', '\u{301}', '\u{1e83}'),
        ('\u{77}', '\u{302}', '\u{175}'),
        ('\u{77}', '\u{307}', '\u{1e87}'),
        ('\u{77}', '\u{308}', '\u{1e85}'),
        ('\u{77}', '\u{30a}', '\u{1e98}'),
        ('\u{78}', '\u{307}', '\u{1e8b}'),
        ('\u{78}', '\u{308}', '\u{1e8d}'),
        ('\u{79}', '\u{300}', '\u{1ef3}'),
    ]
}

fn compositions_11() -> (t: Vec<(char, char, char)>)
    ensures
        t@ == compose_table_11(),
{
    let mut t: Vec<(char, char, char)> = Vec::new();
    t.push(('\u{75}', '\u{301}', '\u{fa}'));
    t.push(('\u{75}', '\u{302}', '\u{fb}'));
    t.push(('\u{75}', '\u{303}', '\u{169}'));
    t.push(('\u{75}', '\u{304}', '\u{16b}'));
    t.push(('\u{75}', '\u{306}', '\u{16d}'));
    t.push(('\u{75}', '\u{308}', '\u{fc}'));
    t.push(('\u{75}', '\u{30a}', '\u{16f}'));
    t.push(('\u{75}', '\u{30b}', '\u{171}'));
    t.push(('\u{75}', '\u{30c}', '\u{1d4}'));
    t.push(('\u{75}', '\u{328}', '\u{173}'));
    t.push(('\u{76}', '\u{303}', '\u{1e7d}'));
    t.push(('\u{77}', '\u{300}', '\u{1e81}'));
    t.push(('\u{77}', '\u{301}', '\u{1e83}'));
    t.push(('\u{77}', '\u{302}', '\u{175}'));
    t.push(('\u{77}', '\u{307}', '\u{1e87}'));
    t.push(('\u{77}', '\u{308}', '\u{1e85}'));
    t.push(('\u{77}', '\u{30a}', '\u{1e98}'));
    t.push(('\u{78}', '\u{307}', '\u{1e8b}'));
    t.push(('\u{78}', '\u{308}', '\u{1e8d}'));
    t.push(('\u{79}', '\u{300}', '\u{1ef3}'));
    t
}

pub open spec fn compose_table_12() -> Seq<(char, char, char)> {
    seq![
        ('\u{79}', '\u{301}', '\u{fd}'),
        ('\u{79}', '\u{302}', '\u{177}'),
        ('\u{79}', '\u{303}', '\u{1ef9}'),
        ('\u{79}', '\u{304}', '\u{233}'),
        ('\u{79}', '\u{307}', '\u{1e8f}'),
        ('\u{79}', '\u{308}', '\u{ff}'),
        ('\u{79}', '\u{30a}', '\u{1e99}'),
        ('\u{7a}', '\u{301}', '\u{17a}'),
        ('\u{7a}', '\u{302}', '\u{1e91}'),
        ('\u{7a}', '\u{307}', '\u{17c}'),
        ('\u{7a}', '\u{30c}', '\u{17e}'),
    ]
}

fn compositions_12() -> (t: Vec<(char, char, char)>)
    ensures
        t@ == compose_table_12(),
{
    let mut t: Vec<(char, char, char)> = Vec::new();
    t.push(('\u{79}', '\u{301}', '\u{fd}'));
    t.push(('\u{79}', '\u{302}', '\u{177}'));
    t.push(('\u{79}', '\u{303}', '\u{1ef9}'));
    t.push(('\u{79}', '\u{304}', '\u{233}'));
    t.push(('\u{79}', '\u{307}', '\u{1e8f}'));
    t.push(('\u{79}', '\u{308}', '\u{ff}'));
    t.push(('\u{79}', '\u{30a}', '\u{1e99}'));
    t.push(('\u{7a}', '\u{301}', '\u{17a}'));
    t.push(('\u{7a}', '\u{302}', '\u{1e91}'));
    t.push(('\u{7a}', '\u{307}', '\u{17c}'));
    t.push(('\u{7a}', '\u{30c}', '\u{17e}'));
    t
}

fn compositions() -> (t: Vec<(char, char, char)>)
    ensures
        t@ == compose_table(),
{
    let mut t = compositions_0();
    let mut c = compositions_1();
    t.append(&mut c);
    let mut c = compositions_2();
    t.append(&mut c);
    let mut c = compositions_3();
    t.append(&mut c);
    let mut c = compositions_4();
    t.append(&mut c);
    let mut c = compositions_5();
    t.append(&mut c);
    let mut c = compositions_6();
    t.append(&mut c);
    let mut c = compositions_7();
    t.append(&mut c);
    let mut c = compositions_8();
    t.append(&mut c);
    let mut c = compositions_9();
    t.append(&mut c);
    let mut c = compositions_10();
    t.append(&mut c);
    let mut c = compositions_11();
    t.append(&mut c);
    let mut c = compositions_12();
    t.append(&mut c);
    t
}

/// The character of the first entry of `t` named `s`.
pub open spec fn char_named(t: Seq<(&'static str, char)>, s: Seq<char>) -> Option<char>
    decreases t.len(),
{
    if t.len() == 0 {
        None
    } else if t[0].0@ == s {
        Some(t[0].1)
    } else {
        char_named(t.drop_first(), s)
    }
}

/// The spacing character and mark of the first dead keysym named `s`.
pub open spec fn dead_named(t: Seq<(&'static str, char, char)>, s: Seq<char>) -> Option<(char, char)>
    decreases t.len(),
{
    if t.len() == 0 {
        None
    } else if t[0].0@ == s {
        Some((t[0].1, t[0].2))
    } else {
        dead_named(t.drop_first(), s)
    }
}

/// The first precomposed form of `base` under `mark`.
pub open spec fn composed(t: Seq<(char, char, char)>, base: char, mark: char) -> Option<char>
    decreases t.len(),
{
    if t.len() == 0 {
        None
    } else if t[0].0 == base && t[0].1 == mark {
        Some(t[0].2)
    } else {
        composed(t.drop_first(), base, mark)
    }
}

pub open spec fn spec_to_char(sym: Seq<char>) -> Option<char> {
    char_named(name_table(), sym)
}

pub open spec fn spec_dead(sym: Seq<char>) -> Option<(char, char)> {
    dead_named(dead_table(), sym)
}

pub open spec fn spec_compose(base: char, mark: char) -> Option<char> {
    composed(compose_table(), base, mark)
}

/// The character a keysym types, if it names one.
pub fn to_char(sym: &Vec<char>) -> (r: Option<char>)
    ensures
        r == spec_to_char(sym@),
{
    let t = names();
    let mut i: usize = 0;
    assert(t@.skip(0) == t@);
    while i < t.len()
        invariant
            i <= t.len(),
            t@ == name_table(),
            char_named(t@, sym@) == char_named(t@.skip(i as int), sym@),
        decreases t.len() - i,
    {
        assert(t@.skip(i as int).drop_first() == t@.skip(i + 1));
        let name = chars_of(t[i].0);
        if same(&name, sym) {
            return Some(t[i].1);
        }
        i = i + 1;
    }
    None
}

/// A dead keysym's spacing character and combining mark.
pub fn dead(sym: &Vec<char>) -> (r: Option<(char, char)>)
    ensures
        r == spec_dead(sym@),
{
    let t = deads();
    let mut i: usize = 0;
    assert(t@.skip(0) == t@);
    while i < t.len()
        invariant
            i <= t.len(),
            t@ == dead_table(),
            dead_named(t@, sym@) == dead_named(t@.skip(i as int), sym@),
        decreases t.len() - i,
    {
        assert(t@.skip(i as int).drop_first() == t@.skip(i + 1));
        let name = chars_of(t[i].0);
        if same(&name, sym) {
            return Some((t[i].1, t[i].2));
        }
        i = i + 1;
    }
    None
}

/// The precomposed character for `base` with `mark` on it, if Unicode has one.
pub fn compose(base: char, mark: char) -> (r: Option<char>)
    ensures
        r == spec_compose(base, mark),
{
    let t = compositions();
    let mut i: usize = 0;
    assert(t@.skip(0) == t@);
    while i < t.len()
        invariant
            i <= t.len(),
            t@ == compose_table(),
            composed(t@, base, mark) == composed(t@.skip(i as int), base, mark),
        decreases t.len() - i,
    {
        assert(t@.skip(i as int).drop_first() == t@.skip(i + 1));
        if t[i].0 == base && t[i].1 == mark {
            return Some(t[i].2);
        }
        i = i + 1;
    }
    None
}

} // verus!
