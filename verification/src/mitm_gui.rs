//! Packet filter settings of the packet tracer: which packet types are
//! collapsed, highlighted, dropped, shown or hidden.
use vstd::prelude::*;
use std::collections::VecDeque;
use crate::fmt_num::{dec_text, digit_char, digits, hex_text, push_dec, push_hex};
use crate::mitm::PacketSource;
use crate::packet_view::{PacketView, packet_name, source_str, source_word, spec_format_log};
use crate::protocol::PacketType;
use crate::server_cli::{is_ws, ws};

verus! {

/// A captured packet as shown by the tracer.
#[derive(Clone, Debug)]
pub struct PacketEvent {
    pub packet: PacketView,
    pub dropped: bool,
}

/// Every element is smaller than every later one.
pub open spec fn strictly_sorted(s: Seq<u16>) -> bool {
    forall|i: int, j: int| 0 <= i < j < s.len() ==> s[i] < s[j]
}

/// No element is larger than a later one.
pub open spec fn sorted(s: Seq<u16>) -> bool {
    forall|i: int, j: int| 0 <= i < j < s.len() ==> s[i] <= s[j]
}

/// A filter list of ids with its enable flag, as plain values.
pub open spec fn filters_view(l: Seq<(Vec<u16>, bool)>) -> Seq<(Seq<u16>, bool)> {
    l.map_values(|e: (Vec<u16>, bool)| (e.0@, e.1))
}

/// Some enabled list holds `id`.
pub open spec fn enabled_holds(l: Seq<(Seq<u16>, bool)>, id: u16) -> bool {
    exists|k: int| 0 <= k < l.len() && #[trigger] l[k].1 && l[k].0.contains(id)
}

/// Some list is enabled.
pub open spec fn any_enabled(l: Seq<(Seq<u16>, bool)>) -> bool {
    exists|k: int| 0 <= k < l.len() && #[trigger] l[k].1
}

/// `b` is the normal form of `a`: strictly increasing, with the same ids.
pub open spec fn normal_form_of(b: Seq<u16>, a: Seq<u16>) -> bool {
    &&& strictly_sorted(b)
    &&& forall|x: u16| b.contains(x) <==> a.contains(x)
}

/// Each list of `b` is the normal form of the list at the same place in
/// `a`, with the same flag.
pub open spec fn filters_normalized(b: Seq<(Seq<u16>, bool)>, a: Seq<(Seq<u16>, bool)>) -> bool {
    &&& b.len() == a.len()
    &&& forall|k: int| 0 <= k < a.len() ==> #[trigger] normal_form_of(b[k].0, a[k].0) && b[k].1 == a[k].1
}

/// Uniqueness law: two strictly increasing lists with the same ids are the
/// same list. So normalizing is idempotent, and lists with the same ids
/// normalize alike.
pub proof fn lemma_normal_form_unique(a: Seq<u16>, b: Seq<u16>)
    requires
        strictly_sorted(a),
        strictly_sorted(b),
        forall|x: u16| a.contains(x) <==> b.contains(x),
    ensures
        a == b,
    decreases a.len() + b.len(),
{
    if a.len() == 0 {
        if b.len() > 0 {
            assert(b.contains(b[0]));
        }
        assert(a =~= b);
    } else if b.len() == 0 {
        assert(a.contains(a[0]));
    } else {
        assert(a.contains(a[0]));
        assert(b.contains(b[0]));
        let ia = choose|i: int| 0 <= i < a.len() && a[i] == b[0];
        let ib = choose|i: int| 0 <= i < b.len() && b[i] == a[0];
        assert(a[0] == b[0]) by {
            if a[0] < b[0] {
                assert(b[ib] == a[0]);
                if ib > 0 {
                    assert(b[0] < b[ib]);
                }
            } else if b[0] < a[0] {
                assert(a[ia] == b[0]);
                if ia > 0 {
                    assert(a[0] < a[ia]);
                }
            }
        }
        let ra = a.drop_first();
        let rb = b.drop_first();
        assert forall|x: u16| ra.contains(x) <==> rb.contains(x) by {
            if ra.contains(x) {
                let i = choose|i: int| 0 <= i < ra.len() && ra[i] == x;
                assert(a[i + 1] == x);
                assert(a[0] < a[i + 1]);
                assert(a.contains(x));
                let j = choose|j: int| 0 <= j < b.len() && b[j] == x;
                if j == 0 {
                    assert(false);
                }
                assert(rb[j - 1] == x);
            }
            if rb.contains(x) {
                let i = choose|i: int| 0 <= i < rb.len() && rb[i] == x;
                assert(b[i + 1] == x);
                assert(b[0] < b[i + 1]);
                assert(b.contains(x));
                let j = choose|j: int| 0 <= j < a.len() && a[j] == x;
                if j == 0 {
                    assert(false);
                }
                assert(ra[j - 1] == x);
            }
        }
        lemma_normal_form_unique(ra, rb);
        assert(a =~= seq![a[0]] + ra);
        assert(b =~= seq![b[0]] + rb);
    }
}

/// Normalizing a list that is already in normal form leaves it unchanged.
pub proof fn lemma_normalize_idempotent(a: Seq<u16>, b: Seq<u16>)
    requires
        normal_form_of(a, a),
        normal_form_of(b, a),
    ensures
        b == a,
{
    lemma_normal_form_unique(b, a);
}

proof fn lemma_normalized_filters_agree(b: Seq<(Seq<u16>, bool)>, a: Seq<(Seq<u16>, bool)>, id: u16)
    requires
        filters_normalized(b, a),
    ensures
        enabled_holds(b, id) == enabled_holds(a, id),
        any_enabled(b) == any_enabled(a),
{
    if enabled_holds(a, id) {
        let k = choose|k: int| 0 <= k < a.len() && #[trigger] a[k].1 && a[k].0.contains(id);
        assert(normal_form_of(b[k].0, a[k].0));
        assert(b[k].1 && b[k].0.contains(id));
    }
    if enabled_holds(b, id) {
        let k = choose|k: int| 0 <= k < b.len() && #[trigger] b[k].1 && b[k].0.contains(id);
        assert(normal_form_of(b[k].0, a[k].0));
        assert(a[k].1 && a[k].0.contains(id));
    }
    if any_enabled(a) {
        let k = choose|k: int| 0 <= k < a.len() && #[trigger] a[k].1;
        assert(normal_form_of(b[k].0, a[k].0));
        assert(b[k].1);
    }
    if any_enabled(b) {
        let k = choose|k: int| 0 <= k < b.len() && #[trigger] b[k].1;
        assert(normal_form_of(b[k].0, a[k].0));
        assert(a[k].1);
    }
}

/// Normalizing law: settings whose filter lists are the normal forms of
/// another's (as `normalize_all` leaves them) drop and show exactly the
/// packet types the other drops and shows.
pub proof fn lemma_normalize_all_keeps_filters(before: Settings, after: Settings, id: u16)
    requires
        filters_normalized(filters_view(after.hide@), filters_view(before.hide@)),
        filters_normalized(filters_view(after.drop@), filters_view(before.drop@)),
        filters_normalized(filters_view(after.mask@), filters_view(before.mask@)),
    ensures
        enabled_holds(filters_view(after.drop@), id) == enabled_holds(filters_view(before.drop@), id),
        shows(after, id) == shows(before, id),
{
    lemma_normalized_filters_agree(filters_view(after.hide@), filters_view(before.hide@), id);
    lemma_normalized_filters_agree(filters_view(after.drop@), filters_view(before.drop@), id);
    lemma_normalized_filters_agree(filters_view(after.mask@), filters_view(before.mask@), id);
}

fn insert_sorted_unique(out: &mut Vec<u16>, x: u16)
    requires
        strictly_sorted(old(out)@),
    ensures
        strictly_sorted(final(out)@),
        forall|y: u16| final(out)@.contains(y) <==> (old(out)@.contains(y) || y == x),
{
    let n = out.len();
    let mut i: usize = 0;
    while i < n && out[i] < x
        invariant
            i <= n,
            n == out@.len(),
            forall|k: int| 0 <= k < i ==> out@[k] < x,
        decreases n - i,
    {
        i = i + 1;
    }
    let ghost old_out = out@;
    if i < n && out[i] == x {
        assert(old_out.contains(x));
        return;
    }
    out.insert(i, x);
    assert(final(out)@ == old_out.insert(i as int, x));
    assert forall|a: int, b: int| 0 <= a < b < out@.len() implies out@[a] < out@[b] by {
        if b < i {
        } else if b == i {
        } else if a < i {
            assert(out@[b] == old_out[b - 1]);
            assert(old_out[b - 1] >= x) by {
                if old_out[i as int] >= x {
                    if b - 1 > i {
                        assert(old_out[i as int] < old_out[b - 1]);
                    }
                }
            }
        } else if a == i {
            assert(old_out[b - 1] >= old_out[i as int]);
        } else {
        }
    }
    assert forall|y: u16| out@.contains(y) <==> (old_out.contains(y) || y == x) by {
        if out@.contains(y) {
            let k = choose|k: int| 0 <= k < out@.len() && out@[k] == y;
            if k < i {
                assert(old_out[k] == y);
            } else if k > i {
                assert(old_out[k - 1] == y);
            }
        }
        if old_out.contains(y) {
            let k = choose|k: int| 0 <= k < old_out.len() && old_out[k] == y;
            if k < i {
                assert(out@[k] == y);
            } else {
                assert(out@[k + 1] == y);
            }
        }
        if y == x {
            assert(out@[i as int] == x);
        }
    }
}

/// Whether the list holds `id`, by linear scan.
fn list_has(list: &Vec<u16>, id: u16) -> (r: bool)
    ensures
        r == list@.contains(id),
{
    let mut k: usize = 0;
    while k < list.len()
        invariant
            k <= list@.len(),
            forall|m: int| 0 <= m < k ==> list@[m] != id,
        decreases list@.len() - k,
    {
        if list[k] == id {
            return true;
        }
        k = k + 1;
    }
    false
}

/// Whether the settings show a packet type: some enabled mask list holds it
/// (or no mask list is enabled), and no enabled hide list holds it.
pub open spec fn shows(settings: Settings, id: u16) -> bool {
    &&& !any_enabled(filters_view(settings.mask@)) || enabled_holds(filters_view(settings.mask@), id)
    &&& !enabled_holds(filters_view(settings.hide@), id)
}

/// Filter settings of the packet tracer.
#[derive(Clone, Debug)]
pub struct Settings {
    pub collapse: Vec<u16>,
    pub highlight: Vec<u16>,
    pub drop: Vec<(Vec<u16>, bool)>,
    pub mask: Vec<(Vec<u16>, bool)>,
    pub hide: Vec<(Vec<u16>, bool)>,
    pub paused: bool,
}

impl Settings {
    /// Whether a sorted list holds `id`, by binary search. On a list that
    /// is not sorted a `true` answer is still right.
    pub fn contains(list: &[u16], id: u16) -> (r: bool)
        ensures
            r ==> list@.contains(id),
            sorted(list@) ==> (r == list@.contains(id)),
    {
        let mut lo: usize = 0;
        let mut hi: usize = list.len();
        while lo < hi
            invariant
                lo <= hi <= list@.len(),
                sorted(list@) ==> forall|k: int| 0 <= k < lo ==> list@[k] < id,
                sorted(list@) ==> forall|k: int| hi <= k < list@.len() ==> list@[k] > id,
            decreases hi - lo,
        {
            let mid = lo + (hi - lo) / 2;
            let v = list[mid];
            if v == id {
                return true;
            } else if v < id {
                lo = mid + 1;
            } else {
                hi = mid;
            }
        }
        proof {
            if sorted(list@) && list@.contains(id) {
                let k = choose|k: int| 0 <= k < list@.len() && list@[k] == id;
                assert(k < lo || k >= hi);
            }
        }
        false
    }

    /// Sorts the list and removes repeated ids.
    pub fn normalize(list: &mut Vec<u16>)
        ensures
            normal_form_of(final(list)@, old(list)@),
    {
        let mut out: Vec<u16> = Vec::new();
        let mut k: usize = 0;
        while k < list.len()
            invariant
                k <= list@.len(),
                list@ == old(list)@,
                strictly_sorted(out@),
                forall|y: u16| out@.contains(y) <==> list@.subrange(0, k as int).contains(y),
            decreases list@.len() - k,
        {
            let ghost before = out@;
            insert_sorted_unique(&mut out, list[k]);
            k = k + 1;
            assert forall|y: u16| out@.contains(y) <==> list@.subrange(0, k as int).contains(y) by {
                let pre = list@.subrange(0, k - 1);
                let cur = list@.subrange(0, k as int);
                if pre.contains(y) {
                    let m = choose|m: int| 0 <= m < pre.len() && pre[m] == y;
                    assert(cur[m] == y);
                }
                if cur.contains(y) {
                    let m = choose|m: int| 0 <= m < cur.len() && cur[m] == y;
                    if m < k - 1 {
                        assert(pre[m] == y);
                    }
                }
                assert(cur[k - 1] == list@[k - 1]);
            }
        }
        assert(list@.subrange(0, k as int) =~= list@);
        *list = out;
    }

    /// Normalizes every id list; flags and the pause state are unchanged.
    pub fn normalize_all(&mut self)
        ensures
            filters_normalized(filters_view(final(self).hide@), filters_view(old(self).hide@)),
            filters_normalized(filters_view(final(self).drop@), filters_view(old(self).drop@)),
            filters_normalized(filters_view(final(self).mask@), filters_view(old(self).mask@)),
            normal_form_of(final(self).collapse@, old(self).collapse@),
            normal_form_of(final(self).highlight@, old(self).highlight@),
            final(self).paused == old(self).paused,
    {
        let hidden = normalize_filters(&self.hide);
        self.hide = hidden;
        Self::normalize(&mut self.collapse);
        Self::normalize(&mut self.highlight);
        let drop = normalize_filters(&self.drop);
        self.drop = drop;
        let mask = normalize_filters(&self.mask);
        self.mask = mask;
    }

    /// Whether an enabled drop list holds `id`.
    pub fn should_drop(&self, id: u16) -> (r: bool)
        ensures
            r == enabled_holds(filters_view(self.drop@), id),
    {
        any_enabled_holds(&self.drop, id)
    }

    /// Whether a packet type is shown: some enabled mask list holds it (or
    /// no mask list is enabled), and no enabled hide list holds it.
    pub fn should_show(&self, id: u16) -> (r: bool)
        ensures
            r == shows(*self, id),
    {
        let any_mask = any_flag(&self.mask);
        let mask_pass = any_enabled_holds(&self.mask, id);
        let hidden = any_enabled_holds(&self.hide, id);
        (!any_mask || mask_pass) && !hidden
    }
}

/// The hide lists of the default settings: heartbeats and stat updates,
/// then movement.
pub open spec fn default_hide() -> Seq<(Seq<u16>, bool)> {
    seq![
        (seq![
            PacketType::HeartbeatClient.spec_code(),
            PacketType::HeartbeatServer.spec_code(),
            PacketType::Heartbeat2.spec_code(),
            PacketType::Heartbeat3.spec_code(),
            PacketType::StatUpdate.spec_code(),
        ], true),
        (seq![PacketType::EntityMove.spec_code(), PacketType::CharacterMove.spec_code()], true),
    ]
}

impl Default for Settings {
    /// Guild avatars and server variables collapsed; heartbeats, stat
    /// updates and movement hidden; nothing dropped or masked.
    fn default() -> (r: Self)
        ensures
            r.collapse@ == seq![PacketType::GuildAvatar.spec_code(), PacketType::ServerVars.spec_code()],
            r.highlight@ == Seq::<u16>::empty(),
            r.drop@.len() == 0,
            r.mask@.len() == 0,
            filters_view(r.hide@) == default_hide(),
            !r.paused,
    {
        let mut collapse: Vec<u16> = Vec::new();
        collapse.push(PacketType::GuildAvatar.code());
        collapse.push(PacketType::ServerVars.code());
        let mut beats: Vec<u16> = Vec::new();
        beats.push(PacketType::HeartbeatClient.code());
        beats.push(PacketType::HeartbeatServer.code());
        beats.push(PacketType::Heartbeat2.code());
        beats.push(PacketType::Heartbeat3.code());
        beats.push(PacketType::StatUpdate.code());
        let mut moves: Vec<u16> = Vec::new();
        moves.push(PacketType::EntityMove.code());
        moves.push(PacketType::CharacterMove.code());
        let mut hidden: Vec<(Vec<u16>, bool)> = Vec::new();
        hidden.push((beats, true));
        hidden.push((moves, true));
        let r = Settings {
            collapse,
            highlight: Vec::new(),
            drop: Vec::new(),
            mask: Vec::new(),
            hide: hidden,
            paused: false,
        };
        assert(r.collapse@ =~= seq![PacketType::GuildAvatar.spec_code(), PacketType::ServerVars.spec_code()]);
        assert(filters_view(r.hide@)[0].0 =~= default_hide()[0].0);
        assert(filters_view(r.hide@)[1].0 =~= default_hide()[1].0);
        assert(filters_view(r.hide@) =~= default_hide());
        r
    }
}

fn copy_ids(list: &Vec<u16>) -> (r: Vec<u16>)
    ensures
        r@ == list@,
{
    let mut r: Vec<u16> = Vec::new();
    let mut k: usize = 0;
    while k < list.len()
        invariant
            k <= list@.len(),
            r@ == list@.subrange(0, k as int),
        decreases list@.len() - k,
    {
        r.push(list[k]);
        k = k + 1;
        assert(r@ =~= list@.subrange(0, k as int));
    }
    assert(list@.subrange(0, k as int) =~= list@);
    r
}

fn normalize_filters(l: &Vec<(Vec<u16>, bool)>) -> (r: Vec<(Vec<u16>, bool)>)
    ensures
        filters_normalized(filters_view(r@), filters_view(l@)),
{
    let mut r: Vec<(Vec<u16>, bool)> = Vec::new();
    let mut k: usize = 0;
    while k < l.len()
        invariant
            k <= l@.len(),
            r@.len() == k,
            forall|m: int|
                0 <= m < k ==> #[trigger] normal_form_of(r@[m].0@, l@[m].0@) && r@[m].1 == l@[m].1,
        decreases l@.len() - k,
    {
        let mut ids = copy_ids(&l[k].0);
        Settings::normalize(&mut ids);
        let ghost before = r@;
        r.push((ids, l[k].1));
        assert(r@[k as int] == (ids, l@[k as int].1));
        assert(normal_form_of(r@[k as int].0@, l@[k as int].0@));
        assert forall|m: int| 0 <= m < k + 1 implies #[trigger] normal_form_of(r@[m].0@, l@[m].0@)
            && r@[m].1 == l@[m].1 by {
            if m < k {
                assert(r@[m] == before[m]);
            }
        }
        k = k + 1;
    }
    proof {
        let rv = filters_view(r@);
        let lv = filters_view(l@);
        assert forall|m: int| 0 <= m < lv.len() implies #[trigger] normal_form_of(rv[m].0, lv[m].0)
            && rv[m].1 == lv[m].1 by {
            assert(normal_form_of(r@[m].0@, l@[m].0@));
        }
    }
    r
}

fn any_flag(l: &Vec<(Vec<u16>, bool)>) -> (r: bool)
    ensures
        r == any_enabled(filters_view(l@)),
{
    let mut k: usize = 0;
    while k < l.len()
        invariant
            k <= l@.len(),
            forall|m: int| 0 <= m < k ==> !l@[m].1,
        decreases l@.len() - k,
    {
        if l[k].1 {
            assert(filters_view(l@)[k as int].1);
            return true;
        }
        k = k + 1;
    }
    proof {
        let v = filters_view(l@);
        assert forall|m: int| 0 <= m < v.len() implies !#[trigger] v[m].1 by {
            assert(!l@[m].1);
        }
    }
    false
}

fn any_enabled_holds(l: &Vec<(Vec<u16>, bool)>, id: u16) -> (r: bool)
    ensures
        r == enabled_holds(filters_view(l@), id),
{
    let mut k: usize = 0;
    while k < l.len()
        invariant
            k <= l@.len(),
            forall|m: int| 0 <= m < k ==> !(l@[m].1 && l@[m].0@.contains(id)),
        decreases l@.len() - k,
    {
        if l[k].1 && list_has(&l[k].0, id) {
            assert(filters_view(l@)[k as int].1 && filters_view(l@)[k as int].0.contains(id));
            return true;
        }
        k = k + 1;
    }
    proof {
        let v = filters_view(l@);
        assert forall|m: int| 0 <= m < v.len() implies !(#[trigger] v[m].1 && v[m].0.contains(id)) by {
            assert(!(l@[m].1 && l@[m].0@.contains(id)));
        }
    }
    false
}


/// The text with white space taken off its front.
pub open spec fn trim_start(s: Seq<char>) -> Seq<char>
    decreases s.len(),
{
    if s.len() > 0 && is_ws(s[0]) {
        trim_start(s.drop_first())
    } else {
        s
    }
}

/// The text with white space taken off its end.
pub open spec fn trim_end(s: Seq<char>) -> Seq<char>
    decreases s.len(),
{
    if s.len() > 0 && is_ws(s.last()) {
        trim_end(s.drop_last())
    } else {
        s
    }
}

/// The text with white space taken off both ends.
pub open spec fn trim(s: Seq<char>) -> Seq<char> {
    trim_end(trim_start(s))
}

/// The value of a digit character in base `radix` (at most 36), if it is
/// one: `0`-`9`, then letters of either case from 10 on.
pub open spec fn radix_digit(c: char, radix: nat) -> Option<nat> {
    let v: int = if '0' <= c <= '9' {
        c as int - '0' as int
    } else if 'a' <= c <= 'z' {
        c as int - 'a' as int + 10
    } else if 'A' <= c <= 'Z' {
        c as int - 'A' as int + 10
    } else {
        radix as int
    };
    if v < radix {
        Some(v as nat)
    } else {
        None
    }
}

/// Every character is a digit of the base.
pub open spec fn all_radix_digits(d: Seq<char>, radix: nat) -> bool {
    forall|k: int| 0 <= k < d.len() ==> #[trigger] radix_digit(d[k], radix) is Some
}

/// The number that digits of a base stand for.
pub open spec fn radix_value(d: Seq<char>, radix: nat) -> nat
    decreases d.len(),
{
    if d.len() == 0 {
        0
    } else {
        radix * radix_value(d.drop_last(), radix) + match radix_digit(d.last(), radix) {
            Some(v) => v,
            None => 0,
        }
    }
}

/// The 16-bit number that a text reads as in a base: an optional `+`, then
/// one or more digits whose value fits in 16 bits.
pub open spec fn spec_parse_u16(t: Seq<char>, radix: nat) -> Option<u16> {
    let d = if t.len() > 0 && t[0] == '+' {
        t.drop_first()
    } else {
        t
    };
    if d.len() > 0 && all_radix_digits(d, radix) && radix_value(d, radix) <= u16::MAX {
        Some(radix_value(d, radix) as u16)
    } else {
        None
    }
}

/// The packet type id that a typed text stands for: after trimming, a
/// hexadecimal number behind `0x` or `0X`, else a decimal number.
pub open spec fn spec_parse_id(s: Seq<char>) -> Option<u16> {
    let t = trim(s);
    if t.len() >= 2 && t[0] == '0' && (t[1] == 'x' || t[1] == 'X') {
        spec_parse_u16(t.subrange(2, t.len() as int), 16)
    } else {
        spec_parse_u16(t, 10)
    }
}

/// A digit character of a base up to 16 reads back as its value, and is
/// neither white space, a sign nor the `x` of a hexadecimal prefix.
proof fn lemma_digit_char_reads(d: nat, b: nat, upper: bool)
    requires
        2 <= b <= 16,
        d < b,
    ensures
        radix_digit(digit_char(d, upper), b) == Some(d),
        !is_ws(digit_char(d, upper)),
        digit_char(d, upper) != '+' && digit_char(d, upper) != 'x' && digit_char(d, upper) != 'X',
{
}

proof fn lemma_digits_read(v: nat, b: nat, upper: bool)
    requires
        2 <= b <= 16,
    ensures
        digits(v, b, upper).len() >= 1,
        all_radix_digits(digits(v, b, upper), b),
        radix_value(digits(v, b, upper), b) == v,
        forall|k: int|
            0 <= k < digits(v, b, upper).len() ==> !is_ws(#[trigger] digits(v, b, upper)[k]) && digits(
                v,
                b,
                upper,
            )[k] != '+' && digits(v, b, upper)[k] != 'x' && digits(v, b, upper)[k] != 'X',
    decreases v,
{
    let t = digits(v, b, upper);
    if v < b {
        lemma_digit_char_reads(v, b, upper);
        assert(t.drop_last() =~= Seq::<char>::empty());
        assert(radix_value(t.drop_last(), b) == 0);
        assert(b * radix_value(t.drop_last(), b) == 0);
    } else {
        crate::fmt_num::lemma_div_smaller(v, b);
        lemma_digits_read(v / b, b, upper);
        let h = digits(v / b, b, upper);
        assert(v % b < b) by (nonlinear_arith)
            requires
                b >= 2,
        ;
        lemma_digit_char_reads(v % b, b, upper);
        assert(t == h.push(digit_char(v % b, upper)));
        assert(t.drop_last() =~= h);
        assert(b * (v / b) + v % b == v) by (nonlinear_arith)
            requires
                b >= 2,
        ;
        assert(radix_value(t, b) == b * radix_value(h, b) + v % b);
        assert forall|k: int| 0 <= k < t.len() implies #[trigger] radix_digit(t[k], b) is Some by {
            if k < h.len() {
                assert(t[k] == h[k]);
            }
        }
        assert forall|k: int| 0 <= k < t.len() implies !is_ws(#[trigger] t[k]) && t[k] != '+' && t[k]
            != 'x' && t[k] != 'X' by {
            if k < h.len() {
                assert(t[k] == h[k]);
            }
        }
    }
}

proof fn lemma_trim_plain(t: Seq<char>)
    requires
        t.len() > 0,
        !is_ws(t[0]),
        !is_ws(t.last()),
    ensures
        trim(t) == t,
{
}

/// Read-back law: the decimal text of an id, and its upper-case
/// hexadecimal text behind `0x`, both read back as the id.
pub proof fn lemma_parse_id_reads_back(id: u16)
    ensures
        spec_parse_id(dec_text(id as nat)) == Some(id),
        spec_parse_id(hex_text(id as nat)) == Some(id),
{
    let d = digits(id as nat, 10, true);
    lemma_digits_read(id as nat, 10, true);
    assert(!is_ws(d[0]) && !is_ws(d[d.len() - 1]));
    lemma_trim_plain(d);
    assert(d[1] != 'x' || d.len() < 2);
    let h = digits(id as nat, 16, true);
    lemma_digits_read(id as nat, 16, true);
    let t = hex_text(id as nat);
    assert(t == seq!['0', 'x'] + h);
    assert(t[t.len() - 1] == h[h.len() - 1]);
    assert(!is_ws(t[0]) && !is_ws(t[t.len() - 1]));
    lemma_trim_plain(t);
    assert(t.subrange(2, t.len() as int) =~= h);
    assert(h[0] != '+');
}

fn digit_in(c: char, radix: u32) -> (r: Option<u32>)
    requires
        2 <= radix <= 36,
    ensures
        match radix_digit(c, radix as nat) {
            Some(v) => r == Some(v as u32),
            None => r is None,
        },
{
    let v: u32 = if '0' <= c && c <= '9' {
        (c as u32) - ('0' as u32)
    } else if 'a' <= c && c <= 'z' {
        (c as u32) - ('a' as u32) + 10
    } else if 'A' <= c && c <= 'Z' {
        (c as u32) - ('A' as u32) + 10
    } else {
        radix
    };
    if v < radix {
        Some(v)
    } else {
        None
    }
}

/// The 16-bit number that the characters `a..b` of a text read as.
fn parse_u16_range(s: &str, a: usize, b: usize, radix: u32) -> (r: Option<u16>)
    requires
        a <= b <= s@.len(),
        radix == 10 || radix == 16,
    ensures
        r == spec_parse_u16(s@.subrange(a as int, b as int), radix as nat),
{
    let ghost t = s@.subrange(a as int, b as int);
    let mut start = a;
    if a < b && s.get_char(a) == '+' {
        start = a + 1;
    }
    let ghost d = if t.len() > 0 && t[0] == '+' {
        t.drop_first()
    } else {
        t
    };
    assert(d =~= s@.subrange(start as int, b as int));
    if start == b {
        return None;
    }
    let mut v: u32 = 0;
    let mut over = false;
    let mut k = start;
    assert(d.subrange(0, 0) =~= Seq::<char>::empty());
    while k < b
        invariant
            start <= k <= b <= s@.len(),
            d == s@.subrange(start as int, b as int),
            t == s@.subrange(a as int, b as int),
            d == (if t.len() > 0 && t[0] == '+' {
                t.drop_first()
            } else {
                t
            }),
            radix == 10 || radix == 16,
            forall|m: int| 0 <= m < k - start ==> #[trigger] radix_digit(d[m], radix as nat) is Some,
            !over ==> v as nat == radix_value(d.subrange(0, k - start), radix as nat),
            over ==> radix_value(d.subrange(0, k - start), radix as nat) > u16::MAX,
            v <= u16::MAX,
        decreases b - k,
    {
        let c = s.get_char(k);
        assert(d[k - start] == c);
        match digit_in(c, radix) {
            None => {
                assert(!all_radix_digits(d, radix as nat));
                return None;
            },
            Some(dv) => {
                let ghost prev = radix_value(d.subrange(0, k - start), radix as nat);
                proof {
                    let p = d.subrange(0, k - start + 1);
                    assert(p.drop_last() =~= d.subrange(0, k - start));
                    assert(p.last() == c);
                    assert(radix * prev >= prev) by (nonlinear_arith)
                        requires
                            radix >= 1,
                    ;
                }
                if !over {
                    assert(v * radix <= 65535 * 16) by (nonlinear_arith)
                        requires
                            v <= 65535,
                            radix <= 16,
                    ;
                    let nv = v * radix + dv;
                    if nv > 65535 {
                        over = true;
                    } else {
                        v = nv;
                    }
                }
                k = k + 1;
            },
        }
    }
    assert(d.subrange(0, k - start) =~= d);
    if over {
        None
    } else {
        Some(v as u16)
    }
}

/// The characters `lo..hi` of a text that remain after trimming.
fn trim_range(s: &str) -> (r: (usize, usize))
    ensures
        r.0 <= r.1 <= s@.len(),
        s@.subrange(r.0 as int, r.1 as int) == trim(s@),
{
    let n = s.unicode_len();
    let mut lo: usize = 0;
    assert(s@.subrange(0, n as int) =~= s@);
    while lo < n && ws(s.get_char(lo))
        invariant
            lo <= n,
            n == s@.len(),
            trim_start(s@) == trim_start(s@.subrange(lo as int, n as int)),
        decreases n - lo,
    {
        assert(s@.subrange(lo as int, n as int).drop_first() =~= s@.subrange(lo + 1, n as int));
        lo = lo + 1;
    }
    proof {
        let t = s@.subrange(lo as int, n as int);
        if lo < n {
            assert(t[0] == s@[lo as int]);
        }
        assert(trim_start(t) == t);
    }
    let mut hi: usize = n;
    while hi > lo && ws(s.get_char(hi - 1))
        invariant
            lo <= hi <= n,
            n == s@.len(),
            trim(s@) == trim_end(s@.subrange(lo as int, hi as int)),
        decreases hi,
    {
        assert(s@.subrange(lo as int, hi as int).drop_last() =~= s@.subrange(lo as int, hi - 1));
        hi = hi - 1;
    }
    proof {
        let t = s@.subrange(lo as int, hi as int);
        if hi > lo {
            assert(t.last() == s@[hi - 1]);
        }
        assert(trim_end(t) == t);
    }
    (lo, hi)
}

/// Reads a packet type id typed by the user: decimal, or hexadecimal
/// behind `0x`, with white space around it allowed.
pub fn parse_id(s: &str) -> (r: Result<u16, ()>)
    ensures
        match spec_parse_id(s@) {
            Some(v) => r == Ok::<u16, ()>(v),
            None => r is Err,
        },
{
    let (lo, hi) = trim_range(s);
    let ghost t = s@.subrange(lo as int, hi as int);
    let parsed = if hi - lo >= 2 && s.get_char(lo) == '0' && (s.get_char(lo + 1) == 'x'
        || s.get_char(lo + 1) == 'X') {
        proof {
            assert(t.subrange(2, t.len() as int) =~= s@.subrange(lo + 2, hi as int));
        }
        parse_u16_range(s, lo + 2, hi, 16)
    } else {
        parse_u16_range(s, lo, hi, 10)
    };
    match parsed {
        Some(v) => Ok(v),
        None => Err(()),
    }
}

/// The label of a packet type id in the filter lists: its name (or
/// `UNKNOWN`) and its hexadecimal value.
pub open spec fn id_label(id: u16) -> Seq<char> {
    let name = match PacketType::spec_from_u16(id) {
        Some(t) => t.spec_name()@,
        None => "UNKNOWN"@,
    };
    name + " ("@ + hex_text(id as nat) + ")"@
}

/// Label of a packet type id: `"NAME (0xHEX)"`.
pub fn format_id(id: u16) -> (r: String)
    ensures
        r@ == id_label(id),
{
    let mut text = match packet_name(id) {
        Some(n) => n,
        None => String::from_str("UNKNOWN"),
    };
    text.append(" (");
    push_hex(&mut text, id as u64);
    text.append(")");
    text
}

/// Adds the id typed in `input` to a filter list, keeping the list in
/// normal form, and empties the input; a text that reads as no id leaves
/// both as they were.
pub fn add_id(input: &mut String, list: &mut Vec<u16>)
    ensures
        match spec_parse_id(old(input)@) {
            Some(v) => final(input)@.len() == 0 && normal_form_of(final(list)@, old(list)@.push(v)),
            None => final(input)@ == old(input)@ && final(list)@ == old(list)@,
        },
{
    match parse_id(input.as_str()) {
        Ok(v) => {
            list.push(v);
            Settings::normalize(list);
            *input = String::new();
        },
        Err(_) => {},
    }
}

/// The header line of a captured packet:
/// `"[<side>] <name> <0xHEX> (<dec>) <length> bytes"`, then ` COMPRESSED`
/// and ` DROPPED` where they apply; a packet without a name is called
/// `packet`.
pub open spec fn header_text(e: PacketEvent) -> Seq<char> {
    let p = e.packet;
    let name = match p.name {
        Some(n) => n@,
        None => "packet"@,
    };
    let base = "["@ + source_word(p.source) + "] "@ + name + " "@ + hex_text(p.id as nat) + " ("@
        + dec_text(p.id as nat) + ") "@ + dec_text(p.length as nat) + " bytes"@;
    let marked = if p.compressed {
        base + " COMPRESSED"@
    } else {
        base
    };
    if e.dropped {
        marked + " DROPPED"@
    } else {
        marked
    }
}

/// The header line of a captured packet.
pub fn header(event: &PacketEvent) -> (r: String)
    ensures
        r@ == header_text(*event),
{
    let p = &event.packet;
    let mut text = String::from_str("[");
    text.append(source_str(p.source));
    text.append("] ");
    match &p.name {
        Some(n) => text.append(n.as_str()),
        None => text.append("packet"),
    }
    text.append(" ");
    push_hex(&mut text, p.id as u64);
    text.append(" (");
    push_dec(&mut text, p.id as u64);
    text.append(") ");
    push_dec(&mut text, p.length as u64);
    text.append(" bytes");
    if p.compressed {
        text.append(" COMPRESSED");
    }
    if event.dropped {
        text.append(" DROPPED");
    }
    text
}

/// How a packet header is drawn.
#[derive(Clone, Copy, Debug, PartialEq, Eq, Structural)]
pub enum HeaderStyle {
    /// Bold red: the packet was dropped.
    Dropped,
    /// Bold green: its type is highlighted.
    Highlighted,
    /// Bold: its type is collapsed.
    Collapsed,
    /// Plain text.
    Plain,
}

/// The style of a header, from whether the packet was dropped and whether
/// its type is highlighted or collapsed, in that order of precedence.
pub open spec fn spec_header_style(dropped: bool, highlighted: bool, collapsed: bool) -> HeaderStyle {
    if dropped {
        HeaderStyle::Dropped
    } else if highlighted {
        HeaderStyle::Highlighted
    } else if collapsed {
        HeaderStyle::Collapsed
    } else {
        HeaderStyle::Plain
    }
}

/// The style of a packet's header under the settings.
pub fn header_style(settings: &Settings, event: &PacketEvent) -> (r: HeaderStyle)
    ensures
        sorted(settings.highlight@) && sorted(settings.collapse@) ==> r == spec_header_style(
            event.dropped,
            settings.highlight@.contains(event.packet.id),
            settings.collapse@.contains(event.packet.id),
        ),
        event.dropped <==> r == HeaderStyle::Dropped,
        r == HeaderStyle::Highlighted ==> settings.highlight@.contains(event.packet.id),
        r == HeaderStyle::Collapsed ==> settings.collapse@.contains(event.packet.id),
{
    let id = event.packet.id;
    let highlighted = Settings::contains(settings.highlight.as_slice(), id);
    let collapsed = Settings::contains(settings.collapse.as_slice(), id);
    if event.dropped {
        HeaderStyle::Dropped
    } else if highlighted {
        HeaderStyle::Highlighted
    } else if collapsed {
        HeaderStyle::Collapsed
    } else {
        HeaderStyle::Plain
    }
}

/// Whether the body of a packet is shown under its header: when it is
/// dissected in the pretty form, or when its type is not collapsed and it
/// has more than the two type bytes.
pub fn body_shown(settings: &Settings, event: &PacketEvent) -> (r: bool)
    ensures
        sorted(settings.collapse@) ==> r == (event.packet.pretty || (!settings.collapse@.contains(
            event.packet.id,
        ) && event.packet.data@.len() > 2)),
        event.packet.pretty ==> r,
        r ==> event.packet.pretty || event.packet.data@.len() > 2,
{
    let collapsed = Settings::contains(settings.collapse.as_slice(), event.packet.id);
    event.packet.pretty || !collapsed && event.packet.data.len() > 2
}

/// The number of packets above which the oldest are let go.
pub const CLEAR_THRESHOLD: usize = 4000;

/// How many of the oldest packets are let go at once.
pub const CLEAR_COUNT: usize = 1000;

/// The log after a packet arrives: it is appended, and when the log then
/// holds more than [`CLEAR_THRESHOLD`] packets the oldest [`CLEAR_COUNT`]
/// are let go.
pub open spec fn logged_after(log: Seq<PacketEvent>, event: PacketEvent) -> Seq<PacketEvent> {
    let grown = log.push(event);
    if grown.len() > CLEAR_THRESHOLD {
        grown.subrange(CLEAR_COUNT as int, grown.len() as int)
    } else {
        grown
    }
}

/// The line that separates packets in copied text.
pub open spec fn copy_separator() -> Seq<char> {
    "\n--- --- --- --- --- --- --- --- --- --- --- --- --- ---\n"@
}

/// The text of all shown packets of a log, each behind a separator line.
pub open spec fn copy_text(log: Seq<PacketEvent>, settings: Settings) -> Seq<char>
    decreases log.len(),
{
    if log.len() == 0 {
        Seq::empty()
    } else {
        let rest = copy_text(log.drop_last(), settings);
        let p = log.last().packet;
        if shows(settings, p.id) {
            rest + copy_separator() + spec_format_log(p)
        } else {
            rest
        }
    }
}

/// The captured packets of the tracer, oldest first.
pub struct PacketLog {
    pub packets: VecDeque<PacketEvent>,
}

impl PacketLog {
    /// An empty log.
    pub fn new() -> (r: Self)
        ensures
            r.packets@.len() == 0,
    {
        PacketLog { packets: VecDeque::new() }
    }

    /// Takes in a packet that arrived; while capture is paused it is let
    /// go.
    pub fn receive(&mut self, event: PacketEvent, paused: bool)
        ensures
            paused ==> final(self).packets@ == old(self).packets@,
            !paused ==> final(self).packets@ == logged_after(old(self).packets@, event),
            old(self).packets@.len() <= CLEAR_THRESHOLD ==> final(self).packets@.len() <= CLEAR_THRESHOLD,
    {
        broadcast use vstd::std_specs::vecdeque::group_vec_dequeue_axioms;
        if paused {
            return;
        }
        self.packets.push_back(event);
        if self.packets.len() > CLEAR_THRESHOLD {
            let ghost grown = self.packets@;
            let mut k: usize = 0;
            while k < CLEAR_COUNT
                invariant
                    k <= CLEAR_COUNT,
                    grown.len() > CLEAR_THRESHOLD,
                    self.packets@ == grown.subrange(k as int, grown.len() as int),
                decreases CLEAR_COUNT - k,
            {
                let _ = self.packets.pop_front();
                assert(self.packets@ =~= grown.subrange(k + 1, grown.len() as int));
                k = k + 1;
            }
        }
    }

    /// Lets go of every packet.
    pub fn clear(&mut self)
        ensures
            final(self).packets@.len() == 0,
    {
        self.packets.clear();
    }

    /// The text of every shown packet, for copying out of the tracer.
    pub fn copy_all(&self, settings: &Settings) -> (r: String)
        ensures
            r@ == copy_text(self.packets@, *settings),
    {
        broadcast use vstd::std_specs::vecdeque::group_vec_dequeue_axioms;
        let mut text = String::new();
        let mut k: usize = 0;
        assert(self.packets@.subrange(0, 0) =~= Seq::<PacketEvent>::empty());
        while k < self.packets.len()
            invariant
                k <= self.packets@.len(),
                text@ == copy_text(self.packets@.subrange(0, k as int), *settings),
            decreases self.packets@.len() - k,
        {
            let event = &self.packets[k];
            proof {
                let pre = self.packets@.subrange(0, k + 1);
                assert(pre.drop_last() =~= self.packets@.subrange(0, k as int));
                assert(pre.last() == *event);
            }
            if settings.should_show(event.packet.id) {
                text.append("\n--- --- --- --- --- --- --- --- --- --- --- --- --- ---\n");
                let log = event.packet.format_log();
                text.append(log.as_str());
            }
            k = k + 1;
        }
        assert(self.packets@.subrange(0, k as int) =~= self.packets@);
        text
    }
}

} // verus!
