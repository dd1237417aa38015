//! Chat commands of the game server: an emote text such as `loc 25565`,
//! `spawnmob 467 100` or `give 309 1` is read as a command and answered
//! with packets.
use vstd::prelude::*;
use crate::protocol::{
    Coords, CoordsView, Entity, ItemDesc, ItemDescView, Packet, PacketModel, PosCamera,
    PosCameraView, ReceiveItem, ReceiveItemView, SwitchLocation, SwitchLocationView,
};
use crate::rqode_binrw::{F32, InvSlot, RString, RVec, U8, U16, U32};
use crate::server_datamap::mob_entity;
use crate::server_handler::{PacketOrBlob, PacketOrBlobModel, packets_view};

verus! {

/// Whether a character is white space (the Unicode `White_Space` set, as
/// `char::is_whitespace` has it).
pub open spec fn is_ws(c: char) -> bool {
    ||| '\u{9}' <= c <= '\u{d}'
    ||| c == ' '
    ||| c == '\u{85}'
    ||| c == '\u{a0}'
    ||| c == '\u{1680}'
    ||| '\u{2000}' <= c <= '\u{200a}'
    ||| c == '\u{2028}'
    ||| c == '\u{2029}'
    ||| c == '\u{202f}'
    ||| c == '\u{205f}'
    ||| c == '\u{3000}'
}

pub(crate) fn ws(c: char) -> (r: bool)
    ensures
        r == is_ws(c),
{
    ('\u{9}' <= c && c <= '\u{d}') || c == ' ' || c == '\u{85}' || c == '\u{a0}' || c == '\u{1680}'
        || ('\u{2000}' <= c && c <= '\u{200a}') || c == '\u{2028}' || c == '\u{2029}' || c
        == '\u{202f}' || c == '\u{205f}' || c == '\u{3000}'
}

/// The length of the word at the front of `s` (up to the first white
/// space).
pub open spec fn word_len(s: Seq<char>) -> nat
    decreases s.len(),
{
    if s.len() == 0 || is_ws(s[0]) {
        0
    } else {
        1 + word_len(s.drop_first())
    }
}

/// The words of a text: its maximal runs of characters that are not white
/// space.
pub open spec fn words(s: Seq<char>) -> Seq<Seq<char>>
    decreases s.len(),
{
    if s.len() == 0 {
        Seq::empty()
    } else if is_ws(s[0]) {
        words(s.drop_first())
    } else {
        let w = word_len(s);
        proof {
            lemma_word_len_bound(s);
        }
        seq![s.subrange(0, w as int)] + words(s.subrange(w as int, s.len() as int))
    }
}

pub proof fn lemma_word_len_bound(s: Seq<char>)
    ensures
        word_len(s) <= s.len(),
        s.len() > 0 && !is_ws(s[0]) ==> word_len(s) > 0,
    decreases s.len(),
{
    if s.len() > 0 && !is_ws(s[0]) {
        lemma_word_len_bound(s.drop_first());
    }
}

/// A command of the chat.
#[derive(Clone, Copy, Debug, PartialEq, Eq, Structural)]
pub enum ChatCli {
    /// Change location.
    Loc { id: u32 },
    /// Spawn a mob.
    Spawnmob { id: u16, hp: u32 },
    /// Give an item.
    Give { id: u32, quant: u16 },
}

/// A word that reads as an option (a dash and more).
pub open spec fn is_flag(t: Seq<char>) -> bool {
    t.len() >= 2 && t[0] == '-'
}

/// The values given after a command name: every word up to a `--`, which
/// makes all later words values; `None` if an option comes first.
pub open spec fn positional(ts: Seq<Seq<char>>) -> Option<Seq<Seq<char>>>
    decreases ts.len(),
{
    if ts.len() == 0 {
        Some(Seq::empty())
    } else if ts[0] == "--"@ {
        Some(ts.drop_first())
    } else if is_flag(ts[0]) {
        None
    } else {
        match positional(ts.drop_first()) {
            Some(r) => Some(seq![ts[0]] + r),
            None => None,
        }
    }
}

/// The value of a decimal digit character.
pub open spec fn digit_value(c: char) -> int {
    c as int - '0' as int
}

/// Whether a character is a decimal digit.
pub open spec fn is_digit(c: char) -> bool {
    '0' <= c <= '9'
}

/// The number that decimal digits stand for.
pub open spec fn digits_value(d: Seq<char>) -> nat
    decreases d.len(),
{
    if d.len() == 0 {
        0
    } else {
        (10 * digits_value(d.drop_last()) + digit_value(d.last())) as nat
    }
}

/// A word without its leading sign, if it has one.
pub open spec fn unsigned_part(t: Seq<char>) -> Seq<char> {
    if t.len() > 0 && (t[0] == '+' || t[0] == '-') {
        t.drop_first()
    } else {
        t
    }
}

/// Every character is a decimal digit.
pub open spec fn all_digits(d: Seq<char>) -> bool {
    forall|k: int| 0 <= k < d.len() ==> #[trigger] is_digit(d[k])
}

/// The value of a number word if it is in `0..=max`: an optional sign,
/// then decimal digits (a minus sign only before zero).
pub open spec fn number_word(t: Seq<char>, max: nat) -> Option<nat> {
    let d = unsigned_part(t);
    if d.len() > 0 && all_digits(d) {
        let v = digits_value(d);
        if t[0] == '-' && v != 0 {
            None
        } else if v <= max {
            Some(v)
        } else {
            None
        }
    } else {
        None
    }
}

/// The command that a text reads as: a command name, then exactly its
/// values, each within its type's range.
pub open spec fn spec_chat_command(text: Seq<char>) -> Option<ChatCli> {
    let ts = words(text);
    if ts.len() == 0 {
        None
    } else {
        match positional(ts.drop_first()) {
            None => None,
            Some(a) => if ts[0] == "loc"@ && a.len() == 1 {
                match number_word(a[0], u32::MAX as nat) {
                    Some(id) => Some(ChatCli::Loc { id: id as u32 }),
                    None => None,
                }
            } else if ts[0] == "spawnmob"@ && a.len() == 2 {
                match (number_word(a[0], u16::MAX as nat), number_word(a[1], u32::MAX as nat)) {
                    (Some(id), Some(hp)) => Some(ChatCli::Spawnmob { id: id as u16, hp: hp as u32 }),
                    _ => None,
                }
            } else if ts[0] == "give"@ && a.len() == 2 {
                match (number_word(a[0], u32::MAX as nat), number_word(a[1], u16::MAX as nat)) {
                    (Some(id), Some(quant)) => Some(ChatCli::Give { id: id as u32, quant: quant as u16 }),
                    _ => None,
                }
            } else {
                None
            },
        }
    }
}

/// The views of word ranges of a text.
pub open spec fn range_words(s: Seq<char>, r: Seq<(usize, usize)>) -> Seq<Seq<char>> {
    r.map_values(|p: (usize, usize)| s.subrange(p.0 as int, p.1 as int))
}

proof fn lemma_words_ws(s: Seq<char>, i: int)
    requires
        0 <= i < s.len(),
        is_ws(s[i]),
    ensures
        words(s.subrange(i, s.len() as int)) == words(s.subrange(i + 1, s.len() as int)),
{
    assert(s.subrange(i, s.len() as int).drop_first() =~= s.subrange(i + 1, s.len() as int));
}

proof fn lemma_word_len_step(s: Seq<char>, j: int)
    requires
        0 <= j < s.len(),
        !is_ws(s[j]),
    ensures
        word_len(s.subrange(j, s.len() as int)) == 1 + word_len(s.subrange(j + 1, s.len() as int)),
{
    assert(s.subrange(j, s.len() as int).drop_first() =~= s.subrange(j + 1, s.len() as int));
}

proof fn lemma_words_word(s: Seq<char>, i: int, j: int)
    requires
        0 <= i < j <= s.len(),
        !is_ws(s[i]),
        word_len(s.subrange(i, s.len() as int)) == j - i,
    ensures
        words(s.subrange(i, s.len() as int)) == seq![s.subrange(i, j)] + words(s.subrange(j, s.len() as int)),
{
    let t = s.subrange(i, s.len() as int);
    lemma_word_len_bound(t);
    assert(t.subrange(0, j - i) =~= s.subrange(i, j));
    assert(t.subrange(j - i, t.len() as int) =~= s.subrange(j, s.len() as int));
}

/// The ranges of the words of a text, in order.
fn split_words(text: &str) -> (r: Vec<(usize, usize)>)
    ensures
        range_words(text@, r@) == words(text@),
        forall|k: int| #![trigger r@[k]] 0 <= k < r@.len() ==> r@[k].0 <= r@[k].1 <= text@.len(),
{
    let n = text.unicode_len();
    let ghost s = text@;
    let mut r: Vec<(usize, usize)> = Vec::new();
    let mut i: usize = 0;
    assert(s.subrange(0, n as int) =~= s);
    while i < n
        invariant
            i <= n,
            n == s.len(),
            s == text@,
            words(s) == range_words(s, r@) + words(s.subrange(i as int, n as int)),
            forall|k: int| #![trigger r@[k]] 0 <= k < r@.len() ==> r@[k].0 <= r@[k].1 <= n,
        decreases n - i,
    {
        let c = text.get_char(i);
        if ws(c) {
            proof {
                lemma_words_ws(s, i as int);
            }
            i = i + 1;
        } else {
            let mut j: usize = i + 1;
            proof {
                lemma_word_len_step(s, i as int);
            }
            while j < n && !ws(text.get_char(j))
                invariant
                    i < j <= n,
                    n == s.len(),
                    s == text@,
                    word_len(s.subrange(i as int, n as int)) == (j - i) + word_len(s.subrange(j as int, n as int)),
                decreases n - j,
            {
                proof {
                    lemma_word_len_step(s, j as int);
                }
                j = j + 1;
            }
            proof {
                if j < n {
                    assert(is_ws(s[j as int]));
                    assert(word_len(s.subrange(j as int, n as int)) == 0) by {
                        assert(s.subrange(j as int, n as int)[0] == s[j as int]);
                    }
                } else {
                    assert(s.subrange(j as int, n as int).len() == 0);
                }
                lemma_words_word(s, i as int, j as int);
            }
            let ghost before = r@;
            r.push((i, j));
            proof {
                assert(range_words(s, r@) =~= range_words(s, before).push(s.subrange(i as int, j as int)));
                assert(range_words(s, r@) + words(s.subrange(j as int, n as int)) =~= range_words(s, before)
                    + (seq![s.subrange(i as int, j as int)] + words(s.subrange(j as int, n as int))));
            }
            i = j;
        }
    }
    proof {
        assert(s.subrange(n as int, n as int).len() == 0);
        assert(range_words(s, r@) + Seq::<Seq<char>>::empty() =~= range_words(s, r@));
    }
    r
}

/// Whether the characters `a..b` of a text are exactly `lit`.
fn range_is(text: &str, a: usize, b: usize, lit: &str) -> (r: bool)
    requires
        a <= b <= text@.len(),
    ensures
        r == (text@.subrange(a as int, b as int) == lit@),
{
    let n = lit.unicode_len();
    if b - a != n {
        return false;
    }
    let mut k: usize = 0;
    while k < n
        invariant
            k <= n,
            n == lit@.len(),
            b - a == n,
            a <= b <= text@.len(),
            forall|m: int| 0 <= m < k ==> text@[a + m] == lit@[m],
        decreases n - k,
    {
        if text.get_char(a + k) != lit.get_char(k) {
            return false;
        }
        k = k + 1;
    }
    assert(text@.subrange(a as int, b as int) =~= lit@);
    true
}

proof fn lemma_digits_value_grows(d: Seq<char>, k: int)
    requires
        0 <= k <= d.len(),
        forall|m: int| 0 <= m < d.len() ==> #[trigger] is_digit(d[m]),
    ensures
        digits_value(d.subrange(0, k)) <= digits_value(d),
    decreases d.len() - k,
{
    if k < d.len() {
        lemma_digits_value_grows(d, k + 1);
        let p = d.subrange(0, k + 1);
        assert(p.drop_last() =~= d.subrange(0, k));
        assert(is_digit(p.last()));
    } else {
        assert(d.subrange(0, k) =~= d);
    }
}

/// The number that the characters `a..b` of a text stand for, if they
/// read as a number in `0..=max`.
fn range_number(text: &str, a: usize, b: usize, max: u64) -> (r: Option<u64>)
    requires
        a <= b <= text@.len(),
        max <= u32::MAX,
    ensures
        match number_word(text@.subrange(a as int, b as int), max as nat) {
            Some(v) => r == Some(v as u64),
            None => r is None,
        },
{
    let ghost t = text@.subrange(a as int, b as int);
    if a == b {
        return None;
    }
    let first = text.get_char(a);
    let neg = first == '-';
    let start = if first == '+' || first == '-' {
        a + 1
    } else {
        a
    };
    let ghost d = unsigned_part(t);
    assert(d =~= text@.subrange(start as int, b as int));
    if start == b {
        return None;
    }
    let mut v: u64 = 0;
    let mut k: usize = start;
    while k < b
        invariant
            start <= k <= b <= text@.len(),
            d == text@.subrange(start as int, b as int),
            t == text@.subrange(a as int, b as int),
            t.len() > 0,
            d == unsigned_part(t),
            neg == (t[0] == '-'),
            forall|m: int| 0 <= m < k - start ==> #[trigger] is_digit(d[m]),
            v as nat == digits_value(d.subrange(0, k - start)),
            v <= max,
            max <= u32::MAX,
        decreases b - k,
    {
        let c = text.get_char(k);
        assert(d[k - start] == c);
        if c < '0' || c > '9' {
            assert(!is_digit(d[k - start]));
            assert(!all_digits(d));
            assert(number_word(t, max as nat) is None);
            return None;
        }
        let dv = (c as u32 - '0' as u32) as u64;
        proof {
            let p = d.subrange(0, k - start + 1);
            assert(p.drop_last() =~= d.subrange(0, k - start));
            assert(p.last() == c);
        }
        v = v * 10 + dv;
        k = k + 1;
        if v > max {
            proof {
                if all_digits(d) {
                    lemma_digits_value_grows(d, k - start);
                    assert(digits_value(d) > max);
                }
                assert(number_word(t, max as nat) is None);
            }
            return None;
        }
    }
    assert(d.subrange(0, b - start) =~= d);
    if neg && v != 0 {
        None
    } else {
        Some(v)
    }
}

/// The values after the command name: `None` if an option comes before a
/// `--`.
fn positional_ranges(text: &str, toks: &Vec<(usize, usize)>) -> (r: Option<Vec<(usize, usize)>>)
    requires
        toks@.len() >= 1,
        forall|k: int| #![trigger toks@[k]] 0 <= k < toks@.len() ==> toks@[k].0 <= toks@[k].1 <= text@.len(),
    ensures
        match positional(range_words(text@, toks@).drop_first()) {
            Some(a) => r matches Some(v) && range_words(text@, v@) == a && (forall|k: int|
                #![trigger v@[k]] 0 <= k < v@.len() ==> v@[k].0 <= v@[k].1 <= text@.len()),
            None => r is None,
        },
{
    let ghost ts = range_words(text@, toks@);
    let n = toks.len();
    let mut out: Vec<(usize, usize)> = Vec::new();
    let mut k: usize = 1;
    assert(ts.drop_first() =~= ts.subrange(1, n as int));
    while k < n
        invariant
            1 <= k <= n,
            n == toks@.len(),
            ts == range_words(text@, toks@),
            forall|m: int| #![trigger toks@[m]] 0 <= m < toks@.len() ==> toks@[m].0 <= toks@[m].1 <= text@.len(),
            forall|m: int| #![trigger out@[m]] 0 <= m < out@.len() ==> out@[m].0 <= out@[m].1 <= text@.len(),
            positional(ts.subrange(1, n as int)) == match positional(ts.subrange(k as int, n as int)) {
                Some(rest) => Some(range_words(text@, out@) + rest),
                None => None::<Seq<Seq<char>>>,
            },
        decreases n - k,
    {
        let (a, b) = toks[k];
        let ghost cur = ts.subrange(k as int, n as int);
        assert(cur[0] == text@.subrange(a as int, b as int));
        assert(cur.drop_first() =~= ts.subrange(k + 1, n as int));
        if range_is(text, a, b, "--") {
            let mut m: usize = k + 1;
            while m < n
                invariant
                    k < m <= n,
                    n == toks@.len(),
                    ts == range_words(text@, toks@),
                    forall|q: int| #![trigger toks@[q]] 0 <= q < toks@.len() ==> toks@[q].0 <= toks@[q].1 <= text@.len(),
                    forall|q: int| #![trigger out@[q]] 0 <= q < out@.len() ==> out@[q].0 <= out@[q].1 <= text@.len(),
                    positional(ts.subrange(1, n as int)) == Some(range_words(text@, out@) + ts.subrange(m as int, n as int)),
                decreases n - m,
            {
                let ghost before = out@;
                out.push(toks[m]);
                proof {
                    assert(range_words(text@, out@) =~= range_words(text@, before).push(ts[m as int]));
                    assert(range_words(text@, out@) + ts.subrange(m + 1, n as int) =~= range_words(text@, before)
                        + ts.subrange(m as int, n as int));
                }
                m = m + 1;
            }
            assert(range_words(text@, out@) + ts.subrange(n as int, n as int) =~= range_words(text@, out@));
            return Some(out);
        }
        if b - a >= 2 && text.get_char(a) == '-' {
            return None;
        }
        let ghost before = out@;
        out.push((a, b));
        proof {
            assert(range_words(text@, out@) =~= range_words(text@, before).push(cur[0]));
            match positional(ts.subrange(k + 1, n as int)) {
                Some(rest) => {
                    assert(range_words(text@, out@) + rest =~= range_words(text@, before) + (seq![cur[0]] + rest));
                },
                None => {},
            }
        }
        k = k + 1;
    }
    assert(range_words(text@, out@) + Seq::<Seq<char>>::empty() =~= range_words(text@, out@));
    Some(out)
}

/// Reads a chat text as a command (the name, then its values).
pub fn parse_chat_command(text: &str) -> (r: Option<ChatCli>)
    ensures
        r == spec_chat_command(text@),
{
    proof {
        reveal_strlit("loc");
        reveal_strlit("spawnmob");
        reveal_strlit("give");
        reveal_strlit("--");
    }
    let toks = split_words(text);
    if toks.len() == 0 {
        return None;
    }
    let args = match positional_ranges(text, &toks) {
        Some(a) => a,
        None => {
            return None;
        },
    };
    let (a, b) = toks[0];
    assert(words(text@)[0] == text@.subrange(a as int, b as int));
    if range_is(text, a, b, "loc") && args.len() == 1 {
        let (x, y) = args[0];
        match range_number(text, x, y, 0xFFFF_FFFF) {
            Some(id) => Some(ChatCli::Loc { id: id as u32 }),
            None => None,
        }
    } else if range_is(text, a, b, "spawnmob") && args.len() == 2 {
        let (x0, y0) = args[0];
        let (x1, y1) = args[1];
        match (range_number(text, x0, y0, 0xFFFF), range_number(text, x1, y1, 0xFFFF_FFFF)) {
            (Some(id), Some(hp)) => Some(ChatCli::Spawnmob { id: id as u16, hp: hp as u32 }),
            _ => None,
        }
    } else if range_is(text, a, b, "give") && args.len() == 2 {
        let (x0, y0) = args[0];
        let (x1, y1) = args[1];
        match (range_number(text, x0, y0, 0xFFFF_FFFF), range_number(text, x1, y1, 0xFFFF)) {
            (Some(id), Some(quant)) => Some(ChatCli::Give { id: id as u32, quant: quant as u16 }),
            _ => None,
        }
    } else {
        None
    }
}

/// The origin of a location.
pub open spec fn origin() -> CoordsView {
    CoordsView { x: F32(0), y: F32(0) }
}

/// The packets that answer a command: a location switch with the camera at
/// the origin; a level-1 mob (id 1000) at the origin; or a received item
/// in inventory slot 1 of tab 2.
pub open spec fn command_packets(cmd: ChatCli) -> Seq<PacketOrBlobModel> {
    match cmd {
        ChatCli::Loc { id } => seq![
            PacketOrBlobModel::Packet(PacketModel::SwitchLocation(SwitchLocationView { location_id: U32(id), unk1: U32(0) })),
            PacketOrBlobModel::Packet(
                PacketModel::PosCamera(
                    PosCameraView {
                        unk0: U32(0),
                        coords: origin(),
                        rot: F32(0),
                        unk4: U8(1),
                        movspeed: F32(0x41A0_0000),
                        effects: Seq::empty(),
                    },
                ),
            ),
        ],
        ChatCli::Spawnmob { id, hp } => seq![
            PacketOrBlobModel::Packet(PacketModel::Entity(mob_entity(1000, id, 1, seq!['\0'], hp, hp, origin()))),
        ],
        ChatCli::Give { id, quant } => seq![
            PacketOrBlobModel::Packet(
                PacketModel::ReceiveItem(
                    ReceiveItemView {
                        unk0: U8(1),
                        item: ItemDescView {
                            slot: InvSlot { idx: 1, unk1: 0, tab: 2, inv: 2 },
                            id: U32(id),
                            count: U16(quant),
                            flags: U32(0),
                            unk5: None,
                            unk6: None,
                            ext: None,
                        },
                    },
                ),
            ),
        ],
    }
}

/// Spawn law: a spawn command answers with exactly one packet, an entity
/// that is a mob with entity id 1000, of the command's mob kind `id`, whose
/// hit points and maximum hit points are both the command's `hp`.
pub proof fn lemma_spawnmob_packet(id: u16, hp: u32)
    ensures
        command_packets(ChatCli::Spawnmob { id, hp }).len() == 1,
        command_packets(ChatCli::Spawnmob { id, hp })[0] matches PacketOrBlobModel::Packet(PacketModel::Entity(e))
            && e.kind matches crate::protocol::EntityKindView::Mob(m)
            && m.id == U32(1000) && m.mob_id == U16(id) && m.hp == U32(hp) && m.max_hp == U32(hp),
{
}

/// Reads a chat text as a command and appends the packets that answer it;
/// `None` (and nothing appended) when the text is not a command.
pub fn process_cli_command(text: &str, out: &mut Vec<PacketOrBlob>) -> (r: Option<()>)
    ensures
        match spec_chat_command(text@) {
            Some(cmd) => r is Some && packets_view(final(out)@) == packets_view(old(out)@) + command_packets(cmd),
            None => r is None && final(out)@ == old(out)@,
        },
{
    let cmd = match parse_chat_command(text) {
        Some(c) => c,
        None => {
            return None;
        },
    };
    let ghost before = out@;
    match cmd {
        ChatCli::Loc { id } => {
            out.push(PacketOrBlob::Packet(Packet::SwitchLocation(SwitchLocation { location_id: U32(id), unk1: U32(0) })));
            let effects: RVec<crate::protocol::CameraEffect> = RVec { data: Vec::new() };
            assert(effects@ =~= Seq::<crate::protocol::CameraEffectView>::empty());
            out.push(
                PacketOrBlob::Packet(
                    Packet::PosCamera(
                        PosCamera {
                            unk0: U32(0),
                            coords: Coords { x: F32(0), y: F32(0) },
                            rot: F32(0),
                            unk4: U8(1),
                            movspeed: F32(0x41A0_0000),
                            effects,
                        },
                    ),
                ),
            );
        },
        ChatCli::Spawnmob { id, hp } => {
            let e = crate::server_datamap::build_mob_entity(
                1000,
                id,
                1,
                RString::empty(),
                hp,
                hp,
                Coords { x: F32(0), y: F32(0) },
            );
            out.push(PacketOrBlob::Packet(Packet::Entity(e)));
        },
        ChatCli::Give { id, quant } => {
            out.push(
                PacketOrBlob::Packet(
                    Packet::ReceiveItem(
                        ReceiveItem {
                            unk0: U8(1),
                            item: ItemDesc {
                                slot: InvSlot { idx: 1, unk1: 0, tab: 2, inv: 2 },
                                id: U32(id),
                                count: U16(quant),
                                flags: U32(0),
                                unk5: None,
                                unk6: None,
                                ext: None,
                            },
                        },
                    ),
                ),
            );
        },
    }
    assert(packets_view(out@) =~= packets_view(before) + command_packets(cmd));
    Some(())
}

} // verus!
