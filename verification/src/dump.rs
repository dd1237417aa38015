//! Readable text of values, laid out on one line or over indented lines:
//! `Name { field: value, .. }` for records, `Name(value, ..)` for wrapped
//! values and `[item, ..]` for lists; numbers in decimal and text quoted.
use vstd::prelude::*;
use crate::fmt_num::{dec_text, push_dec};
use crate::text::string_push;
use crate::rqode_binrw::{
    opt_view, BinError, BodyParam, CurrencyData, DataElement, DataElementView, F32, InvSlot, Op13, Op21, Op36, Op3B,
    RBool, RBytes, RString, RVec, RZlib, U16, U32, U64, U8,
};

verus! {

/// Four spaces for each level of indentation.
pub open spec fn indent(level: nat) -> Seq<char>
    decreases level,
{
    if level == 0 {
        Seq::empty()
    } else {
        indent((level - 1) as nat) + "    "@
    }
}

/// The level of the items inside a group (indentation stops growing past
/// a thousand levels).
pub open spec fn deeper(level: nat) -> nat {
    if level < 1000 {
        level + 1
    } else {
        level
    }
}

/// The level of the items inside a group.
pub fn deeper_level(level: usize) -> (r: usize)
    ensures
        r == deeper(level as nat),
{
    if level < 1000 {
        level + 1
    } else {
        level
    }
}

fn push_indent(out: &mut String, level: usize)
    ensures
        final(out)@ == old(out)@ + indent(level as nat),
{
    let mut k: usize = 0;
    while k < level
        invariant
            k <= level,
            out@ == old(out)@ + indent(k as nat),
        decreases level - k,
    {
        out.append("    ");
        k = k + 1;
        assert(out@ =~= old(out)@ + indent(k as nat));
    }
}

/// The items of a group: each on its own line with a trailing comma when
/// pretty, else separated by `, `.
pub open spec fn entries_text(items: Seq<Seq<char>>, pretty: bool, level: nat) -> Seq<char>
    decreases items.len(),
{
    if items.len() == 0 {
        Seq::empty()
    } else if pretty {
        entries_text(items.drop_last(), pretty, level) + indent(deeper(level)) + items.last() + ",\n"@
    } else if items.len() == 1 {
        items.last()
    } else {
        entries_text(items.drop_last(), pretty, level) + ", "@ + items.last()
    }
}

/// The kinds of groups: a record `{ }`, a wrapped value `( )` or a list
/// `[ ]`.
#[derive(Clone, Copy, Debug, PartialEq, Eq, Structural)]
pub enum GroupKind {
    Record,
    Wrapped,
    List,
}

/// The text of a group of items, with its name in front.
pub open spec fn group_text(
    name: Seq<char>,
    kind: GroupKind,
    items: Seq<Seq<char>>,
    pretty: bool,
    level: nat,
) -> Seq<char> {
    let (open, close) = match kind {
        GroupKind::Record => ('{', '}'),
        GroupKind::Wrapped => ('(', ')'),
        GroupKind::List => ('[', ']'),
    };
    if items.len() == 0 {
        match kind {
            GroupKind::List => name + "[]"@,
            _ => name,
        }
    } else if pretty {
        name + (if kind is Record { " "@ } else { Seq::empty() }) + seq![open] + "\n"@ + entries_text(
            items,
            true,
            level,
        ) + indent(level) + seq![close]
    } else if kind is Record {
        name + " { "@ + entries_text(items, false, level) + " }"@
    } else {
        name + seq![open] + entries_text(items, false, level) + seq![close]
    }
}

/// The views of strings.
pub open spec fn strings_view(v: Seq<String>) -> Seq<Seq<char>> {
    v.map_values(|s: String| s@)
}

fn push_entries(out: &mut String, items: &Vec<String>, pretty: bool, level: usize)
    ensures
        final(out)@ == old(out)@ + entries_text(strings_view(items@), pretty, level as nat),
{
    let dl = deeper_level(level);
    let mut k: usize = 0;
    assert(strings_view(items@.subrange(0, 0)) =~= Seq::<Seq<char>>::empty());
    while k < items.len()
        invariant
            k <= items@.len(),
            dl == deeper(level as nat),
            out@ == old(out)@ + entries_text(strings_view(items@.subrange(0, k as int)), pretty, level as nat),
        decreases items@.len() - k,
    {
        let ghost before = out@;
        let ghost pre = strings_view(items@.subrange(0, k as int));
        let ghost cur = strings_view(items@.subrange(0, k + 1));
        assert(cur.drop_last() =~= pre);
        assert(cur.last() == items@[k as int]@);
        if pretty {
            push_indent(out, dl);
            out.append(items[k].as_str());
            out.append(",\n");
        } else {
            if k > 0 {
                out.append(", ");
            }
            out.append(items[k].as_str());
        }
        k = k + 1;
        assert(out@ =~= old(out)@ + entries_text(cur, pretty, level as nat));
    }
    assert(items@.subrange(0, k as int) =~= items@);
}

/// Writes a group of items with its name in front.
pub fn push_group(out: &mut String, name: &str, kind: GroupKind, items: &Vec<String>, pretty: bool, level: usize)
    ensures
        final(out)@ == old(out)@ + group_text(name@, kind, strings_view(items@), pretty, level as nat),
{
    let ghost k0 = kind;
    let (open, close, record, list) = match kind {
        GroupKind::Record => ("{", "}", true, false),
        GroupKind::Wrapped => ("(", ")", false, false),
        GroupKind::List => ("[", "]", false, true),
    };
    proof {
        reveal_strlit("{");
        reveal_strlit("}");
        reveal_strlit("(");
        reveal_strlit(")");
        reveal_strlit("[");
        reveal_strlit("]");
        reveal_strlit(" ");
        reveal_strlit("");
    }
    out.append(name);
    if items.len() == 0 {
        if list {
            out.append("[]");
        }
        assert(out@ =~= old(out)@ + group_text(name@, k0, strings_view(items@), pretty, level as nat));
        return;
    }
    if pretty {
        if record {
            out.append(" ");
        }
        out.append(open);
        out.append("\n");
        push_entries(out, items, true, level);
        push_indent(out, level);
        out.append(close);
    } else if record {
        out.append(" { ");
        push_entries(out, items, false, level);
        out.append(" }");
    } else {
        out.append(open);
        push_entries(out, items, false, level);
        out.append(close);
    }
    assert(out@ =~= old(out)@ + group_text(name@, k0, strings_view(items@), pretty, level as nat));
}

/// A value with a readable text.
pub trait Dump: View + Sized {
    /// The text of a value at indentation `level`, on one line or, when
    /// `pretty`, over lines.
    spec fn spec_dump(v: Self::V, pretty: bool, level: nat) -> Seq<char>;

    /// Appends the text of the value.
    fn dump(&self, out: &mut String, pretty: bool, level: usize)
        ensures
            final(out)@ == old(out)@ + Self::spec_dump(self@, pretty, level as nat),
    ;
}

/// The text of the value, as a new string.
pub fn dump_text<T: Dump>(v: &T, pretty: bool, level: usize) -> (r: String)
    ensures
        r@ == T::spec_dump(v@, pretty, level as nat),
{
    let mut s = String::new();
    v.dump(&mut s, pretty, level);
    assert(s@ =~= T::spec_dump(v@, pretty, level as nat));
    s
}

/// `label` followed by the text of the value, as a new string.
pub fn labelled<T: Dump>(label: &str, v: &T, pretty: bool, level: usize) -> (r: String)
    ensures
        r@ == label@ + T::spec_dump(v@, pretty, level as nat),
{
    let mut s = String::from_str(label);
    v.dump(&mut s, pretty, level);
    s
}

/// The texts of values given by their views.
pub open spec fn views_texts<T: Dump>(s: Seq<T::V>, pretty: bool, level: nat) -> Seq<Seq<char>> {
    s.map_values(|x: T::V| T::spec_dump(x, pretty, level))
}

/// A list of values given by their views.
pub open spec fn views_list<T: Dump>(s: Seq<T::V>, pretty: bool, level: nat) -> Seq<char> {
    group_text(Seq::empty(), GroupKind::List, views_texts::<T>(s, pretty, deeper(level)), pretty, level)
}

/// A list of values.
pub open spec fn items_list<T: Dump>(s: Seq<T>, pretty: bool, level: nat) -> Seq<char> {
    views_list::<T>(s.map_values(|x: T| x@), pretty, level)
}

/// Writes a list of values.
pub fn push_list<T: Dump>(out: &mut String, items: &[T], pretty: bool, level: usize)
    ensures
        final(out)@ == old(out)@ + items_list::<T>(items@, pretty, level as nat),
{
    let dl = deeper_level(level);
    let mut texts: Vec<String> = Vec::new();
    let mut k: usize = 0;
    while k < items.len()
        invariant
            k <= items@.len(),
            dl == deeper(level as nat),
            strings_view(texts@) == views_texts::<T>(
                items@.subrange(0, k as int).map_values(|x: T| x@),
                pretty,
                dl as nat,
            ),
        decreases items@.len() - k,
    {
        let t = dump_text(&items[k], pretty, dl);
        let ghost before = texts@;
        let ghost prev = views_texts::<T>(items@.subrange(0, k as int).map_values(|x: T| x@), pretty, dl as nat);
        let ghost want = views_texts::<T>(items@.subrange(0, k + 1).map_values(|x: T| x@), pretty, dl as nat);
        texts.push(t);
        proof {
            assert(before.len() == prev.len());
            assert(texts@ == before.push(t));
            assert forall|m: int| 0 <= m < k + 1 implies #[trigger] strings_view(texts@)[m] == want[m] by {
                if m < k {
                    assert(texts@[m] == before[m]);
                    assert(strings_view(before)[m] == prev[m]);
                }
            }
            assert(strings_view(texts@) =~= want);
        }
        k = k + 1;
    }
    assert(items@.subrange(0, k as int) =~= items@);
    push_group(out, "", GroupKind::List, &texts, pretty, level);
    proof {
        reveal_strlit("");
    }
}

/// A list of values, as a new string.
pub fn list_string<T: Dump>(items: &[T], pretty: bool, level: usize) -> (r: String)
    ensures
        r@ == items_list::<T>(items@, pretty, level as nat),
{
    let mut s = String::new();
    push_list(&mut s, items, pretty, level);
    assert(s@ =~= items_list::<T>(items@, pretty, level as nat));
    s
}

/// `label` followed by a list of values, as a new string.
pub fn labelled_list<T: Dump>(label: &str, items: &[T], pretty: bool, level: usize) -> (r: String)
    ensures
        r@ == label@ + items_list::<T>(items@, pretty, level as nat),
{
    let mut s = String::from_str(label);
    push_list(&mut s, items, pretty, level);
    s
}

/// A value that may be absent: `None`, or `Some(value)`.
pub open spec fn option_text<T: Dump>(o: Option<T::V>, pretty: bool, level: nat) -> Seq<char> {
    match o {
        None => "None"@,
        Some(x) => group_text("Some"@, GroupKind::Wrapped, seq![T::spec_dump(x, pretty, deeper(level))], pretty, level),
    }
}

/// Writes a value that may be absent.
pub fn push_option<T: Dump>(out: &mut String, o: &Option<T>, pretty: bool, level: usize)
    ensures
        final(out)@ == old(out)@ + option_text::<T>(opt_view(*o), pretty, level as nat),
{
    match o {
        None => out.append("None"),
        Some(x) => {
            let mut items: Vec<String> = Vec::new();
            items.push(dump_text(x, pretty, deeper_level(level)));
            assert(strings_view(items@) =~= seq![T::spec_dump(x@, pretty, deeper(level as nat))]);
            push_group(out, "Some", GroupKind::Wrapped, &items, pretty, level);
        },
    }
}

/// `label` followed by a value that may be absent, as a new string.
pub fn labelled_option<T: Dump>(label: &str, o: &Option<T>, pretty: bool, level: usize) -> (r: String)
    ensures
        r@ == label@ + option_text::<T>(opt_view(*o), pretty, level as nat),
{
    let mut s = String::from_str(label);
    push_option(&mut s, o, pretty, level);
    s
}

/// A number in decimal.
pub open spec fn number_text(v: nat) -> Seq<char> {
    dec_text(v)
}

impl Dump for u8 {
    open spec fn spec_dump(v: u8, pretty: bool, level: nat) -> Seq<char> {
        number_text(v as nat)
    }

    fn dump(&self, out: &mut String, pretty: bool, level: usize) {
        push_dec(out, *self as u64);
    }
}

impl Dump for u16 {
    open spec fn spec_dump(v: u16, pretty: bool, level: nat) -> Seq<char> {
        number_text(v as nat)
    }

    fn dump(&self, out: &mut String, pretty: bool, level: usize) {
        push_dec(out, *self as u64);
    }
}

impl Dump for u32 {
    open spec fn spec_dump(v: u32, pretty: bool, level: nat) -> Seq<char> {
        number_text(v as nat)
    }

    fn dump(&self, out: &mut String, pretty: bool, level: usize) {
        push_dec(out, *self as u64);
    }
}

impl Dump for u64 {
    open spec fn spec_dump(v: u64, pretty: bool, level: nat) -> Seq<char> {
        number_text(v as nat)
    }

    fn dump(&self, out: &mut String, pretty: bool, level: usize) {
        push_dec(out, *self);
    }
}

impl Dump for usize {
    open spec fn spec_dump(v: usize, pretty: bool, level: nat) -> Seq<char> {
        number_text(v as nat)
    }

    fn dump(&self, out: &mut String, pretty: bool, level: usize) {
        push_dec(out, *self as u64);
    }
}

/// A character inside quotes: quotes, backslashes, line breaks, tabs and
/// NUL behind a backslash, other characters as they are.
pub open spec fn escaped(c: char) -> Seq<char> {
    if c == '"' {
        seq!['\\', '"']
    } else if c == '\\' {
        seq!['\\', '\\']
    } else if c == '\n' {
        seq!['\\', 'n']
    } else if c == '\r' {
        seq!['\\', 'r']
    } else if c == '\t' {
        seq!['\\', 't']
    } else if c == '\0' {
        seq!['\\', '0']
    } else {
        seq![c]
    }
}

/// The characters of a text, each escaped.
pub open spec fn escaped_text(s: Seq<char>) -> Seq<char>
    decreases s.len(),
{
    if s.len() == 0 {
        Seq::empty()
    } else {
        escaped_text(s.drop_last()) + escaped(s.last())
    }
}

/// A text in double quotes.
pub open spec fn quoted(s: Seq<char>) -> Seq<char> {
    seq!['"'] + escaped_text(s) + seq!['"']
}

fn push_escaped(out: &mut String, c: char)
    ensures
        final(out)@ == old(out)@ + escaped(c),
{
    if c == '"' || c == '\\' {
        string_push(out, '\\');
        string_push(out, c);
    } else if c == '\n' {
        string_push(out, '\\');
        string_push(out, 'n');
    } else if c == '\r' {
        string_push(out, '\\');
        string_push(out, 'r');
    } else if c == '\t' {
        string_push(out, '\\');
        string_push(out, 't');
    } else if c == '\0' {
        string_push(out, '\\');
        string_push(out, '0');
    } else {
        string_push(out, c);
    }
    assert(out@ =~= old(out)@ + escaped(c));
}

impl Dump for String {
    open spec fn spec_dump(v: Seq<char>, pretty: bool, level: nat) -> Seq<char> {
        quoted(v)
    }

    fn dump(&self, out: &mut String, pretty: bool, level: usize) {
        let s = self.as_str();
        let n = s.unicode_len();
        string_push(out, '"');
        let ghost start = out@;
        let mut k: usize = 0;
        while k < n
            invariant
                k <= n,
                n == s@.len(),
                s@ == self@,
                out@ == start + escaped_text(s@.subrange(0, k as int)),
            decreases n - k,
        {
            let c = s.get_char(k);
            push_escaped(out, c);
            k = k + 1;
            assert(s@.subrange(0, k as int).drop_last() =~= s@.subrange(0, k - 1));
            assert(out@ =~= start + escaped_text(s@.subrange(0, k as int)));
        }
        assert(s@.subrange(0, n as int) =~= s@);
        string_push(out, '"');
        assert(out@ =~= old(out)@ + quoted(self@));
    }
}

/// A group holding one wrapped item.
pub open spec fn wrapped_one(name: Seq<char>, item: Seq<char>, pretty: bool, level: nat) -> Seq<char> {
    group_text(name, GroupKind::Wrapped, seq![item], pretty, level)
}

/// Writes a group holding one wrapped item.
pub fn push_wrapped_one(out: &mut String, name: &str, item: String, pretty: bool, level: usize)
    ensures
        final(out)@ == old(out)@ + wrapped_one(name@, item@, pretty, level as nat),
{
    let mut items: Vec<String> = Vec::new();
    let ghost t = item@;
    items.push(item);
    assert(strings_view(items@) =~= seq![t]);
    push_group(out, name, GroupKind::Wrapped, &items, pretty, level);
}

impl Dump for U8 {
    open spec fn spec_dump(v: <U8 as View>::V, pretty: bool, level: nat) -> Seq<char> {
        group_text("U8"@, GroupKind::Wrapped, seq![u8::spec_dump(v.0, pretty, deeper(level))], pretty, level)
    }

    fn dump(&self, out: &mut String, pretty: bool, level: usize) {
        let dl = deeper_level(level);
        let mut items: Vec<String> = Vec::new();
        items.push(dump_text(&self.0, pretty, dl));
        assert(strings_view(items@) =~= seq![u8::spec_dump(self@.0, pretty, deeper(level as nat))]);
        push_group(out, "U8", GroupKind::Wrapped, &items, pretty, level);
    }
}

impl Dump for U16 {
    open spec fn spec_dump(v: <U16 as View>::V, pretty: bool, level: nat) -> Seq<char> {
        group_text("U16"@, GroupKind::Wrapped, seq![u16::spec_dump(v.0, pretty, deeper(level))], pretty, level)
    }

    fn dump(&self, out: &mut String, pretty: bool, level: usize) {
        let dl = deeper_level(level);
        let mut items: Vec<String> = Vec::new();
        items.push(dump_text(&self.0, pretty, dl));
        assert(strings_view(items@) =~= seq![u16::spec_dump(self@.0, pretty, deeper(level as nat))]);
        push_group(out, "U16", GroupKind::Wrapped, &items, pretty, level);
    }
}

impl Dump for RBool {
    open spec fn spec_dump(v: <RBool as View>::V, pretty: bool, level: nat) -> Seq<char> {
        group_text("RBool"@, GroupKind::Wrapped, seq![u8::spec_dump(v.0, pretty, deeper(level))], pretty, level)
    }

    fn dump(&self, out: &mut String, pretty: bool, level: usize) {
        let dl = deeper_level(level);
        let mut items: Vec<String> = Vec::new();
        items.push(dump_text(&self.0, pretty, dl));
        assert(strings_view(items@) =~= seq![u8::spec_dump(self@.0, pretty, deeper(level as nat))]);
        push_group(out, "RBool", GroupKind::Wrapped, &items, pretty, level);
    }
}

impl Dump for U32 {
    open spec fn spec_dump(v: <U32 as View>::V, pretty: bool, level: nat) -> Seq<char> {
        group_text("U32"@, GroupKind::Wrapped, seq![u32::spec_dump(v.0, pretty, deeper(level))], pretty, level)
    }

    fn dump(&self, out: &mut String, pretty: bool, level: usize) {
        let dl = deeper_level(level);
        let mut items: Vec<String> = Vec::new();
        items.push(dump_text(&self.0, pretty, dl));
        assert(strings_view(items@) =~= seq![u32::spec_dump(self@.0, pretty, deeper(level as nat))]);
        push_group(out, "U32", GroupKind::Wrapped, &items, pretty, level);
    }
}

impl Dump for F32 {
    open spec fn spec_dump(v: <F32 as View>::V, pretty: bool, level: nat) -> Seq<char> {
        group_text("F32"@, GroupKind::Wrapped, seq![u32::spec_dump(v.0, pretty, deeper(level))], pretty, level)
    }

    fn dump(&self, out: &mut String, pretty: bool, level: usize) {
        let dl = deeper_level(level);
        let mut items: Vec<String> = Vec::new();
        items.push(dump_text(&self.0, pretty, dl));
        assert(strings_view(items@) =~= seq![u32::spec_dump(self@.0, pretty, deeper(level as nat))]);
        push_group(out, "F32", GroupKind::Wrapped, &items, pretty, level);
    }
}

impl Dump for U64 {
    open spec fn spec_dump(v: <U64 as View>::V, pretty: bool, level: nat) -> Seq<char> {
        group_text("U64"@, GroupKind::Wrapped, seq![u64::spec_dump(v.0, pretty, deeper(level))], pretty, level)
    }

    fn dump(&self, out: &mut String, pretty: bool, level: usize) {
        let dl = deeper_level(level);
        let mut items: Vec<String> = Vec::new();
        items.push(dump_text(&self.0, pretty, dl));
        assert(strings_view(items@) =~= seq![u64::spec_dump(self@.0, pretty, deeper(level as nat))]);
        push_group(out, "U64", GroupKind::Wrapped, &items, pretty, level);
    }
}

impl Dump for Op21 {
    open spec fn spec_dump(v: <Op21 as View>::V, pretty: bool, level: nat) -> Seq<char> {
        group_text("Op21"@, GroupKind::Wrapped, seq![u32::spec_dump(v.0, pretty, deeper(level))], pretty, level)
    }

    fn dump(&self, out: &mut String, pretty: bool, level: usize) {
        let dl = deeper_level(level);
        let mut items: Vec<String> = Vec::new();
        items.push(dump_text(&self.0, pretty, dl));
        assert(strings_view(items@) =~= seq![u32::spec_dump(self@.0, pretty, deeper(level as nat))]);
        push_group(out, "Op21", GroupKind::Wrapped, &items, pretty, level);
    }
}

impl Dump for Op36 {
    open spec fn spec_dump(v: <Op36 as View>::V, pretty: bool, level: nat) -> Seq<char> {
        group_text("Op36"@, GroupKind::Wrapped, seq![u32::spec_dump(v.0, pretty, deeper(level)), u16::spec_dump(v.1, pretty, deeper(level))], pretty, level)
    }

    fn dump(&self, out: &mut String, pretty: bool, level: usize) {
        let dl = deeper_level(level);
        let mut items: Vec<String> = Vec::new();
        items.push(dump_text(&self.0, pretty, dl));
        items.push(dump_text(&self.1, pretty, dl));
        assert(strings_view(items@) =~= seq![u32::spec_dump(self@.0, pretty, deeper(level as nat)), u16::spec_dump(self@.1, pretty, deeper(level as nat))]);
        push_group(out, "Op36", GroupKind::Wrapped, &items, pretty, level);
    }
}

impl Dump for InvSlot {
    open spec fn spec_dump(v: <InvSlot as View>::V, pretty: bool, level: nat) -> Seq<char> {
        group_text("InvSlot"@, GroupKind::Record, seq!["idx: "@ + u8::spec_dump(v.idx, pretty, deeper(level)), "unk1: "@ + u8::spec_dump(v.unk1, pretty, deeper(level)), "tab: "@ + u8::spec_dump(v.tab, pretty, deeper(level)), "inv: "@ + u8::spec_dump(v.inv, pretty, deeper(level))], pretty, level)
    }

    fn dump(&self, out: &mut String, pretty: bool, level: usize) {
        let dl = deeper_level(level);
        let mut items: Vec<String> = Vec::new();
        items.push(labelled("idx: ", &self.idx, pretty, dl));
        items.push(labelled("unk1: ", &self.unk1, pretty, dl));
        items.push(labelled("tab: ", &self.tab, pretty, dl));
        items.push(labelled("inv: ", &self.inv, pretty, dl));
        assert(strings_view(items@) =~= seq!["idx: "@ + u8::spec_dump(self@.idx, pretty, deeper(level as nat)), "unk1: "@ + u8::spec_dump(self@.unk1, pretty, deeper(level as nat)), "tab: "@ + u8::spec_dump(self@.tab, pretty, deeper(level as nat)), "inv: "@ + u8::spec_dump(self@.inv, pretty, deeper(level as nat))]);
        push_group(out, "InvSlot", GroupKind::Record, &items, pretty, level);
    }
}

impl Dump for BodyParam {
    open spec fn spec_dump(v: <BodyParam as View>::V, pretty: bool, level: nat) -> Seq<char> {
        group_text("BodyParam"@, GroupKind::Record, seq!["haircolor: "@ + u16::spec_dump(v.haircolor, pretty, deeper(level)), "unk1: "@ + u16::spec_dump(v.unk1, pretty, deeper(level)), "skin: "@ + u16::spec_dump(v.skin, pretty, deeper(level)), "unk3: "@ + u16::spec_dump(v.unk3, pretty, deeper(level)), "unk4: "@ + u16::spec_dump(v.unk4, pretty, deeper(level)), "face: "@ + u16::spec_dump(v.face, pretty, deeper(level)), "unk6: "@ + u16::spec_dump(v.unk6, pretty, deeper(level)), "unk7: "@ + u16::spec_dump(v.unk7, pretty, deeper(level))], pretty, level)
    }

    fn dump(&self, out: &mut String, pretty: bool, level: usize) {
        let dl = deeper_level(level);
        let mut items: Vec<String> = Vec::new();
        items.push(labelled("haircolor: ", &self.haircolor, pretty, dl));
        items.push(labelled("unk1: ", &self.unk1, pretty, dl));
        items.push(labelled("skin: ", &self.skin, pretty, dl));
        items.push(labelled("unk3: ", &self.unk3, pretty, dl));
        items.push(labelled("unk4: ", &self.unk4, pretty, dl));
        items.push(labelled("face: ", &self.face, pretty, dl));
        items.push(labelled("unk6: ", &self.unk6, pretty, dl));
        items.push(labelled("unk7: ", &self.unk7, pretty, dl));
        assert(strings_view(items@) =~= seq!["haircolor: "@ + u16::spec_dump(self@.haircolor, pretty, deeper(level as nat)), "unk1: "@ + u16::spec_dump(self@.unk1, pretty, deeper(level as nat)), "skin: "@ + u16::spec_dump(self@.skin, pretty, deeper(level as nat)), "unk3: "@ + u16::spec_dump(self@.unk3, pretty, deeper(level as nat)), "unk4: "@ + u16::spec_dump(self@.unk4, pretty, deeper(level as nat)), "face: "@ + u16::spec_dump(self@.face, pretty, deeper(level as nat)), "unk6: "@ + u16::spec_dump(self@.unk6, pretty, deeper(level as nat)), "unk7: "@ + u16::spec_dump(self@.unk7, pretty, deeper(level as nat))]);
        push_group(out, "BodyParam", GroupKind::Record, &items, pretty, level);
    }
}

impl Dump for Op13 {
    open spec fn spec_dump(v: <Op13 as View>::V, pretty: bool, level: nat) -> Seq<char> {
        group_text("Op13"@, GroupKind::Wrapped, seq![items_list::<u16>(v, pretty, deeper(level))], pretty, level)
    }

    fn dump(&self, out: &mut String, pretty: bool, level: usize) {
        let dl = deeper_level(level);
        let mut items: Vec<String> = Vec::new();
        items.push(list_string(self.0.as_slice(), pretty, dl));
        assert(strings_view(items@) =~= seq![items_list::<u16>(self@, pretty, deeper(level as nat))]);
        push_group(out, "Op13", GroupKind::Wrapped, &items, pretty, level);
    }
}

impl Dump for Op3B {
    open spec fn spec_dump(v: <Op3B as View>::V, pretty: bool, level: nat) -> Seq<char> {
        group_text("Op3B"@, GroupKind::Wrapped, seq![items_list::<u32>(v, pretty, deeper(level))], pretty, level)
    }

    fn dump(&self, out: &mut String, pretty: bool, level: usize) {
        let dl = deeper_level(level);
        let mut items: Vec<String> = Vec::new();
        items.push(list_string(self.0.as_slice(), pretty, dl));
        assert(strings_view(items@) =~= seq![items_list::<u32>(self@, pretty, deeper(level as nat))]);
        push_group(out, "Op3B", GroupKind::Wrapped, &items, pretty, level);
    }
}

impl Dump for CurrencyData {
    open spec fn spec_dump(v: <CurrencyData as View>::V, pretty: bool, level: nat) -> Seq<char> {
        group_text("CurrencyData"@, GroupKind::Record, seq!["data: "@ + items_list::<u16>(v, pretty, deeper(level))], pretty, level)
    }

    fn dump(&self, out: &mut String, pretty: bool, level: usize) {
        let dl = deeper_level(level);
        let mut items: Vec<String> = Vec::new();
        items.push(labelled_list("data: ", self.data.as_slice(), pretty, dl));
        assert(strings_view(items@) =~= seq!["data: "@ + items_list::<u16>(self@, pretty, deeper(level as nat))]);
        push_group(out, "CurrencyData", GroupKind::Record, &items, pretty, level);
    }
}

impl Dump for RBytes {
    open spec fn spec_dump(v: <RBytes as View>::V, pretty: bool, level: nat) -> Seq<char> {
        group_text("RBytes"@, GroupKind::Record, seq!["data: "@ + items_list::<u8>(v, pretty, deeper(level))], pretty, level)
    }

    fn dump(&self, out: &mut String, pretty: bool, level: usize) {
        let dl = deeper_level(level);
        let mut items: Vec<String> = Vec::new();
        items.push(labelled_list("data: ", self.data.as_slice(), pretty, dl));
        assert(strings_view(items@) =~= seq!["data: "@ + items_list::<u8>(self@, pretty, deeper(level as nat))]);
        push_group(out, "RBytes", GroupKind::Record, &items, pretty, level);
    }
}

impl Dump for RZlib {
    open spec fn spec_dump(v: <RZlib as View>::V, pretty: bool, level: nat) -> Seq<char> {
        group_text("RZlib"@, GroupKind::Record, seq!["data: "@ + items_list::<u8>(v, pretty, deeper(level))], pretty, level)
    }

    fn dump(&self, out: &mut String, pretty: bool, level: usize) {
        let dl = deeper_level(level);
        let mut items: Vec<String> = Vec::new();
        items.push(labelled_list("data: ", self.data.as_slice(), pretty, dl));
        assert(strings_view(items@) =~= seq!["data: "@ + items_list::<u8>(self@, pretty, deeper(level as nat))]);
        push_group(out, "RZlib", GroupKind::Record, &items, pretty, level);
    }
}

impl Dump for RString {
    open spec fn spec_dump(v: <RString as View>::V, pretty: bool, level: nat) -> Seq<char> {
        group_text("RString"@, GroupKind::Record, seq!["data: "@ + quoted(v)], pretty, level)
    }

    fn dump(&self, out: &mut String, pretty: bool, level: usize) {
        let dl = deeper_level(level);
        let mut items: Vec<String> = Vec::new();
        items.push(labelled("data: ", &self.data, pretty, dl));
        assert(strings_view(items@) =~= seq!["data: "@ + quoted(self@)]);
        push_group(out, "RString", GroupKind::Record, &items, pretty, level);
    }
}

impl<T: Dump> Dump for RVec<T> {
    open spec fn spec_dump(v: <RVec<T> as View>::V, pretty: bool, level: nat) -> Seq<char> {
        group_text("RVec"@, GroupKind::Record, seq!["data: "@ + views_list::<T>(v, pretty, deeper(level))], pretty, level)
    }

    fn dump(&self, out: &mut String, pretty: bool, level: usize) {
        let dl = deeper_level(level);
        let mut items: Vec<String> = Vec::new();
        items.push(labelled_list("data: ", self.data.as_slice(), pretty, dl));
        assert(strings_view(items@) =~= seq!["data: "@ + views_list::<T>(self@, pretty, deeper(level as nat))]);
        push_group(out, "RVec", GroupKind::Record, &items, pretty, level);
    }
}


impl Dump for DataElement {
    open spec fn spec_dump(v: DataElementView, pretty: bool, level: nat) -> Seq<char> {
        match v {
            DataElementView::U8(x) => wrapped_one("U8"@, U8::spec_dump(x, pretty, deeper(level)), pretty, level),
            DataElementView::U16(x) => wrapped_one("U16"@, U16::spec_dump(x, pretty, deeper(level)), pretty, level),
            DataElementView::Bool(x) => wrapped_one("Bool"@, RBool::spec_dump(x, pretty, deeper(level)), pretty, level),
            DataElementView::U32(x) => wrapped_one("U32"@, U32::spec_dump(x, pretty, deeper(level)), pretty, level),
            DataElementView::U64(x) => wrapped_one("U64"@, U64::spec_dump(x, pretty, deeper(level)), pretty, level),
            DataElementView::F32(x) => wrapped_one("F32"@, F32::spec_dump(x, pretty, deeper(level)), pretty, level),
            DataElementView::Op13(x) => wrapped_one("Op13"@, Op13::spec_dump(x, pretty, deeper(level)), pretty, level),
            DataElementView::Op1D(x) => wrapped_one("Op1D"@, BodyParam::spec_dump(x, pretty, deeper(level)), pretty, level),
            DataElementView::Op21(x) => wrapped_one("Op21"@, Op21::spec_dump(x, pretty, deeper(level)), pretty, level),
            DataElementView::Op25(x) => wrapped_one("Op25"@, InvSlot::spec_dump(x, pretty, deeper(level)), pretty, level),
            DataElementView::Op36(x) => wrapped_one("Op36"@, Op36::spec_dump(x, pretty, deeper(level)), pretty, level),
            DataElementView::Op3B(x) => wrapped_one("Op3B"@, Op3B::spec_dump(x, pretty, deeper(level)), pretty, level),
            DataElementView::CurrencyData(x) => wrapped_one("CurrencyData"@, CurrencyData::spec_dump(x, pretty, deeper(level)), pretty, level),
            DataElementView::String(x) => wrapped_one("String"@, quoted(x), pretty, level),
            DataElementView::Bytes(x) => wrapped_one("Bytes"@, items_list::<u8>(x, pretty, deeper(level)), pretty, level),
        }
    }

    fn dump(&self, out: &mut String, pretty: bool, level: usize) {
        match self {
            DataElement::U8(x) => push_wrapped_one(out, "U8", dump_text(x, pretty, deeper_level(level)), pretty, level),
            DataElement::U16(x) => push_wrapped_one(out, "U16", dump_text(x, pretty, deeper_level(level)), pretty, level),
            DataElement::Bool(x) => push_wrapped_one(out, "Bool", dump_text(x, pretty, deeper_level(level)), pretty, level),
            DataElement::U32(x) => push_wrapped_one(out, "U32", dump_text(x, pretty, deeper_level(level)), pretty, level),
            DataElement::U64(x) => push_wrapped_one(out, "U64", dump_text(x, pretty, deeper_level(level)), pretty, level),
            DataElement::F32(x) => push_wrapped_one(out, "F32", dump_text(x, pretty, deeper_level(level)), pretty, level),
            DataElement::Op13(x) => push_wrapped_one(out, "Op13", dump_text(x, pretty, deeper_level(level)), pretty, level),
            DataElement::Op1D(x) => push_wrapped_one(out, "Op1D", dump_text(x, pretty, deeper_level(level)), pretty, level),
            DataElement::Op21(x) => push_wrapped_one(out, "Op21", dump_text(x, pretty, deeper_level(level)), pretty, level),
            DataElement::Op25(x) => push_wrapped_one(out, "Op25", dump_text(x, pretty, deeper_level(level)), pretty, level),
            DataElement::Op36(x) => push_wrapped_one(out, "Op36", dump_text(x, pretty, deeper_level(level)), pretty, level),
            DataElement::Op3B(x) => push_wrapped_one(out, "Op3B", dump_text(x, pretty, deeper_level(level)), pretty, level),
            DataElement::CurrencyData(x) => push_wrapped_one(out, "CurrencyData", dump_text(x, pretty, deeper_level(level)), pretty, level),
            DataElement::String(x) => push_wrapped_one(out, "String", dump_text(x, pretty, deeper_level(level)), pretty, level),
            DataElement::Bytes(x) => push_wrapped_one(out, "Bytes", list_string(x.as_slice(), pretty, deeper_level(level)), pretty, level),
        }
    }
}

/// The text of a reading error.
pub open spec fn bin_error_text(e: BinError, pretty: bool) -> Seq<char> {
    match e {
        BinError::Eof => "Eof"@,
        BinError::BadMagic(b) => wrapped_one("BadMagic"@, number_text(b as nat), pretty, 0),
        BinError::Utf8 => "Utf8"@,
        BinError::Decompress => "Decompress"@,
        BinError::NoVariant => "NoVariant"@,
        BinError::TrailingBytes(n) => wrapped_one("TrailingBytes"@, number_text(n as nat), pretty, 0),
    }
}

/// Writes the text of a reading error.
pub fn push_bin_error(out: &mut String, e: BinError, pretty: bool)
    ensures
        final(out)@ == old(out)@ + bin_error_text(e, pretty),
{
    match e {
        BinError::Eof => out.append("Eof"),
        BinError::BadMagic(b) => push_wrapped_one(out, "BadMagic", dump_text(&b, pretty, 1), pretty, 0),
        BinError::Utf8 => out.append("Utf8"),
        BinError::Decompress => out.append("Decompress"),
        BinError::NoVariant => out.append("NoVariant"),
        BinError::TrailingBytes(n) => push_wrapped_one(out, "TrailingBytes", dump_text(&n, pretty, 1), pretty, 0),
    }
}

} // verus!
