use vstd::prelude::*;

verus! {

/// A wall-clock instant at millisecond precision, held as plain calendar
/// fields. The clock itself is read outside the library; the library only
/// derives the deterministic session and frame names from these fields.
#[derive(Clone, Copy, PartialEq, Eq, Structural, Debug)]
pub struct Timestamp {
    pub year: u32,
    pub month: u32,
    pub day: u32,
    pub hour: u32,
    pub minute: u32,
    pub second: u32,
    pub millisecond: u32,
}

impl Timestamp {
    /// A calendar-plausible instant, as a real clock delivers it.
    pub open spec fn valid(self) -> bool {
        &&& self.year <= 9999
        &&& 1 <= self.month <= 12
        &&& 1 <= self.day <= 31
        &&& self.hour <= 23
        &&& self.minute <= 59
        &&& self.second <= 59
        &&& self.millisecond <= 999
    }
}

/// The decimal digit character for `v`'s last decimal digit.
pub open spec fn digit_char(v: int) -> char {
    ((48 + v % 10) as u8) as char
}

/// `v` zero-padded to two decimal digits (modulo 100).
pub open spec fn pad2_seq(v: int) -> Seq<char> {
    seq![digit_char(v / 10), digit_char(v)]
}

/// `v` zero-padded to three decimal digits (modulo 1000).
pub open spec fn pad3_seq(v: int) -> Seq<char> {
    seq![digit_char(v / 100), digit_char(v / 10), digit_char(v)]
}

/// `v` zero-padded to four decimal digits (modulo 10000).
pub open spec fn pad4_seq(v: int) -> Seq<char> {
    seq![digit_char(v / 1000), digit_char(v / 100), digit_char(v / 10), digit_char(v)]
}

/// The session directory name derived from the session-start instant:
/// `YYYYMMDD_HHMMSS`.
pub open spec fn session_name_seq(ts: Timestamp) -> Seq<char> {
    pad4_seq(ts.year as int) + pad2_seq(ts.month as int) + pad2_seq(ts.day as int) + seq!['_']
        + pad2_seq(ts.hour as int) + pad2_seq(ts.minute as int) + pad2_seq(ts.second as int)
}

/// The per-frame stem derived from a capture-completion instant:
/// `YYYYMMDD_HHMMSS_mmm`.
pub open spec fn frame_stamp_seq(ts: Timestamp) -> Seq<char> {
    session_name_seq(ts) + seq!['_'] + pad3_seq(ts.millisecond as int)
}

/// Relies on `String::push`: appends exactly the one given character.
#[verifier::external_body]
fn push_char(s: &mut String, c: char)
    ensures
        final(s)@ == old(s)@ + seq![c],
{
    s.push(c);
}

fn push_digit(s: &mut String, v: u32)
    ensures
        final(s)@ == old(s)@ + seq![digit_char(v as int)],
{
    let d: u8 = 48 + (v % 10) as u8;
    push_char(s, d as char);
}

fn push_pad2(s: &mut String, v: u32)
    ensures
        final(s)@ == old(s)@ + pad2_seq(v as int),
{
    push_digit(s, v / 10);
    push_digit(s, v);
    proof {
        assert(s@ =~= old(s)@ + pad2_seq(v as int));
    }
}

fn push_pad3(s: &mut String, v: u32)
    ensures
        final(s)@ == old(s)@ + pad3_seq(v as int),
{
    push_digit(s, v / 100);
    push_digit(s, v / 10);
    push_digit(s, v);
    proof {
        assert(s@ =~= old(s)@ + pad3_seq(v as int));
    }
}

fn push_pad4(s: &mut String, v: u32)
    ensures
        final(s)@ == old(s)@ + pad4_seq(v as int),
{
    push_digit(s, v / 1000);
    push_digit(s, v / 100);
    push_digit(s, v / 10);
    push_digit(s, v);
    proof {
        assert(s@ =~= old(s)@ + pad4_seq(v as int));
    }
}

impl Timestamp {
    /// The session directory name `YYYYMMDD_HHMMSS` for this instant.
    pub fn session_dir_name(&self) -> (s: String)
        ensures
            s@ == session_name_seq(*self),
    {
        let mut s = String::new();
        push_pad4(&mut s, self.year);
        push_pad2(&mut s, self.month);
        push_pad2(&mut s, self.day);
        push_char(&mut s, '_');
        push_pad2(&mut s, self.hour);
        push_pad2(&mut s, self.minute);
        push_pad2(&mut s, self.second);
        proof {
            assert(s@ =~= session_name_seq(*self));
        }
        s
    }

    /// The per-frame filename stem `YYYYMMDD_HHMMSS_mmm` for this instant.
    pub fn frame_stamp(&self) -> (s: String)
        ensures
            s@ == frame_stamp_seq(*self),
    {
        let mut s = self.session_dir_name();
        push_char(&mut s, '_');
        push_pad3(&mut s, self.millisecond);
        proof {
            assert(s@ =~= frame_stamp_seq(*self));
        }
        s
    }
}

/// `a` lies chronologically strictly before `b`: the earliest differing
/// calendar field decides.
pub open spec fn chronologically_before(a: Timestamp, b: Timestamp) -> bool {
    if a.year != b.year {
        a.year < b.year
    } else if a.month != b.month {
        a.month < b.month
    } else if a.day != b.day {
        a.day < b.day
    } else if a.hour != b.hour {
        a.hour < b.hour
    } else if a.minute != b.minute {
        a.minute < b.minute
    } else if a.second != b.second {
        a.second < b.second
    } else {
        a.millisecond < b.millisecond
    }
}

/// `a` sorts strictly before `b` in byte-wise lexicographic order, the
/// order directory listings use for these ASCII names.
pub open spec fn lex_less(a: Seq<char>, b: Seq<char>) -> bool {
    exists|i: int|
        0 <= i < a.len() && i < b.len() && a.subrange(0, i) == b.subrange(0, i) && (a[i] as u32) < (
        b[i] as u32)
}

proof fn lemma_lex_extend_equal_prefix(p: Seq<char>, ra: Seq<char>, rb: Seq<char>)
    requires
        lex_less(ra, rb),
    ensures
        lex_less(p + ra, p + rb),
{
    let i = choose|i: int|
        0 <= i < ra.len() && i < rb.len() && ra.subrange(0, i) == rb.subrange(0, i) && (
        ra[i] as u32) < (rb[i] as u32);
    let j = p.len() + i;
    assert forall|k: int| 0 <= k < j implies (p + ra)[k] == (p + rb)[k] by {
        if k >= p.len() {
            assert(ra.subrange(0, i)[k - p.len()] == ra[k - p.len()]);
            assert(rb.subrange(0, i)[k - p.len()] == rb[k - p.len()]);
        }
    }
    assert((p + ra).subrange(0, j) =~= (p + rb).subrange(0, j));
    assert((p + ra)[j] == ra[i]);
    assert((p + rb)[j] == rb[i]);
    assert(lex_less(p + ra, p + rb));
}

proof fn lemma_lex_extend_right(a: Seq<char>, b: Seq<char>, ra: Seq<char>, rb: Seq<char>)
    requires
        lex_less(a, b),
    ensures
        lex_less(a + ra, b + rb),
{
    let i = choose|i: int|
        0 <= i < a.len() && i < b.len() && a.subrange(0, i) == b.subrange(0, i) && (a[i] as u32) < (
        b[i] as u32);
    assert forall|k: int| 0 <= k < i implies (a + ra)[k] == (b + rb)[k] by {
        assert(a.subrange(0, i)[k] == a[k]);
        assert(b.subrange(0, i)[k] == b[k]);
    }
    assert((a + ra).subrange(0, i) =~= (b + rb).subrange(0, i));
    assert((a + ra)[i] == a[i]);
    assert((b + rb)[i] == b[i]);
    assert(lex_less(a + ra, b + rb));
}

proof fn lemma_digit_lt(x: int, y: int)
    requires
        0 <= x <= 9,
        0 <= y <= 9,
        x < y,
    ensures
        (digit_char(x) as u32) < (digit_char(y) as u32),
{
}

proof fn lemma_pad2_lex(x: int, y: int)
    requires
        0 <= x < y <= 99,
    ensures
        lex_less(pad2_seq(x), pad2_seq(y)),
{
    let sa = pad2_seq(x);
    let sb = pad2_seq(y);
    if x / 10 == y / 10 {
        assert(x % 10 < y % 10) by (nonlinear_arith)
            requires
                0 <= x < y <= 99,
                x / 10 == y / 10,
        ;
        lemma_digit_lt(x % 10, y % 10);
        assert(sa.subrange(0, 1) =~= sb.subrange(0, 1));
        assert(lex_less(sa, sb));
    } else {
        assert(x / 10 < y / 10 && y / 10 <= 9) by (nonlinear_arith)
            requires
                0 <= x < y <= 99,
                x / 10 != y / 10,
        ;
        lemma_digit_lt((x / 10) % 10, (y / 10) % 10);
        assert(sa.subrange(0, 0) =~= sb.subrange(0, 0));
        assert(lex_less(sa, sb));
    }
}

proof fn lemma_pad3_lex(x: int, y: int)
    requires
        0 <= x < y <= 999,
    ensures
        lex_less(pad3_seq(x), pad3_seq(y)),
{
    let sa = pad3_seq(x);
    let sb = pad3_seq(y);
    if x / 100 != y / 100 {
        assert(x / 100 < y / 100 && y / 100 <= 9) by (nonlinear_arith)
            requires
                0 <= x < y <= 999,
                x / 100 != y / 100,
        ;
        lemma_digit_lt((x / 100) % 10, (y / 100) % 10);
        assert(sa.subrange(0, 0) =~= sb.subrange(0, 0));
        assert(lex_less(sa, sb));
    } else if x / 10 != y / 10 {
        assert(x / 10 < y / 10 && (x / 10) % 10 < (y / 10) % 10) by (nonlinear_arith)
            requires
                0 <= x < y <= 999,
                x / 100 == y / 100,
                x / 10 != y / 10,
        ;
        lemma_digit_lt((x / 10) % 10, (y / 10) % 10);
        assert(sa.subrange(0, 1) =~= sb.subrange(0, 1));
        assert(lex_less(sa, sb));
    } else {
        assert(x % 10 < y % 10) by (nonlinear_arith)
            requires
                0 <= x < y <= 999,
                x / 10 == y / 10,
        ;
        lemma_digit_lt(x % 10, y % 10);
        assert(sa.subrange(0, 2) =~= sb.subrange(0, 2));
        assert(lex_less(sa, sb));
    }
}

proof fn lemma_pad4_lex(x: int, y: int)
    requires
        0 <= x < y <= 9999,
    ensures
        lex_less(pad4_seq(x), pad4_seq(y)),
{
    let sa = pad4_seq(x);
    let sb = pad4_seq(y);
    if x / 1000 != y / 1000 {
        assert(x / 1000 < y / 1000 && y / 1000 <= 9) by (nonlinear_arith)
            requires
                0 <= x < y <= 9999,
                x / 1000 != y / 1000,
        ;
        lemma_digit_lt((x / 1000) % 10, (y / 1000) % 10);
        assert(sa.subrange(0, 0) =~= sb.subrange(0, 0));
        assert(lex_less(sa, sb));
    } else if x / 100 != y / 100 {
        assert(x / 100 < y / 100 && (x / 100) % 10 < (y / 100) % 10) by (nonlinear_arith)
            requires
                0 <= x < y <= 9999,
                x / 1000 == y / 1000,
                x / 100 != y / 100,
        ;
        lemma_digit_lt((x / 100) % 10, (y / 100) % 10);
        assert(sa.subrange(0, 1) =~= sb.subrange(0, 1));
        assert(lex_less(sa, sb));
    } else if x / 10 != y / 10 {
        assert(x / 10 < y / 10 && (x / 10) % 10 < (y / 10) % 10) by (nonlinear_arith)
            requires
                0 <= x < y <= 9999,
                x / 100 == y / 100,
                x / 10 != y / 10,
        ;
        lemma_digit_lt((x / 10) % 10, (y / 10) % 10);
        assert(sa.subrange(0, 2) =~= sb.subrange(0, 2));
        assert(lex_less(sa, sb));
    } else {
        assert(x % 10 < y % 10) by (nonlinear_arith)
            requires
                0 <= x < y <= 9999,
                x / 10 == y / 10,
        ;
        lemma_digit_lt(x % 10, y % 10);
        assert(sa.subrange(0, 3) =~= sb.subrange(0, 3));
        assert(lex_less(sa, sb));
    }
}

/// Frame filenames are monotonically increasing with capture time: for
/// calendar-plausible instants, the chronologically earlier one formats to
/// a lexicographically smaller stamp, so files list in capture order
/// (collisions are possible only for instants equal at the millisecond).
pub proof fn lemma_frame_stamp_monotone(a: Timestamp, b: Timestamp)
    requires
        a.valid(),
        b.valid(),
        chronologically_before(a, b),
    ensures
        lex_less(frame_stamp_seq(a), frame_stamp_seq(b)),
{
    let ya = pad4_seq(a.year as int);
    let yb = pad4_seq(b.year as int);
    let moa = pad2_seq(a.month as int);
    let mob = pad2_seq(b.month as int);
    let da = pad2_seq(a.day as int);
    let db = pad2_seq(b.day as int);
    let ha = pad2_seq(a.hour as int);
    let hb = pad2_seq(b.hour as int);
    let mia = pad2_seq(a.minute as int);
    let mib = pad2_seq(b.minute as int);
    let sa = pad2_seq(a.second as int);
    let sb = pad2_seq(b.second as int);
    let msa = pad3_seq(a.millisecond as int);
    let msb = pad3_seq(b.millisecond as int);
    let u = seq!['_'];
    assert(frame_stamp_seq(a) == ya + moa + da + u + ha + mia + sa + u + msa);
    assert(frame_stamp_seq(b) == yb + mob + db + u + hb + mib + sb + u + msb);
    if a.year != b.year {
        lemma_pad4_lex(a.year as int, b.year as int);
        lemma_lex_extend_right(ya, yb, moa, mob);
        lemma_lex_extend_right(ya + moa, yb + mob, da, db);
        lemma_lex_extend_right(ya + moa + da, yb + mob + db, u, u);
        lemma_lex_extend_right(ya + moa + da + u, yb + mob + db + u, ha, hb);
        lemma_lex_extend_right(ya + moa + da + u + ha, yb + mob + db + u + hb, mia, mib);
        lemma_lex_extend_right(ya + moa + da + u + ha + mia, yb + mob + db + u + hb + mib, sa, sb);
        lemma_lex_extend_right(
            ya + moa + da + u + ha + mia + sa,
            yb + mob + db + u + hb + mib + sb,
            u,
            u,
        );
        lemma_lex_extend_right(
            ya + moa + da + u + ha + mia + sa + u,
            yb + mob + db + u + hb + mib + sb + u,
            msa,
            msb,
        );
    } else if a.month != b.month {
        lemma_pad2_lex(a.month as int, b.month as int);
        lemma_lex_extend_equal_prefix(ya, moa, mob);
        lemma_lex_extend_right(ya + moa, yb + mob, da, db);
        lemma_lex_extend_right(ya + moa + da, yb + mob + db, u, u);
        lemma_lex_extend_right(ya + moa + da + u, yb + mob + db + u, ha, hb);
        lemma_lex_extend_right(ya + moa + da + u + ha, yb + mob + db + u + hb, mia, mib);
        lemma_lex_extend_right(ya + moa + da + u + ha + mia, yb + mob + db + u + hb + mib, sa, sb);
        lemma_lex_extend_right(
            ya + moa + da + u + ha + mia + sa,
            yb + mob + db + u + hb + mib + sb,
            u,
            u,
        );
        lemma_lex_extend_right(
            ya + moa + da + u + ha + mia + sa + u,
            yb + mob + db + u + hb + mib + sb + u,
            msa,
            msb,
        );
    } else if a.day != b.day {
        lemma_pad2_lex(a.day as int, b.day as int);
        lemma_lex_extend_equal_prefix(ya + moa, da, db);
        lemma_lex_extend_right(ya + moa + da, yb + mob + db, u, u);
        lemma_lex_extend_right(ya + moa + da + u, yb + mob + db + u, ha, hb);
        lemma_lex_extend_right(ya + moa + da + u + ha, yb + mob + db + u + hb, mia, mib);
        lemma_lex_extend_right(ya + moa + da + u + ha + mia, yb + mob + db + u + hb + mib, sa, sb);
        lemma_lex_extend_right(
            ya + moa + da + u + ha + mia + sa,
            yb + mob + db + u + hb + mib + sb,
            u,
            u,
        );
        lemma_lex_extend_right(
            ya + moa + da + u + ha + mia + sa + u,
            yb + mob + db + u + hb + mib + sb + u,
            msa,
            msb,
        );
    } else if a.hour != b.hour {
        lemma_pad2_lex(a.hour as int, b.hour as int);
        lemma_lex_extend_equal_prefix(ya + moa + da + u, ha, hb);
        lemma_lex_extend_right(ya + moa + da + u + ha, yb + mob + db + u + hb, mia, mib);
        lemma_lex_extend_right(ya + moa + da + u + ha + mia, yb + mob + db + u + hb + mib, sa, sb);
        lemma_lex_extend_right(
            ya + moa + da + u + ha + mia + sa,
            yb + mob + db + u + hb + mib + sb,
            u,
            u,
        );
        lemma_lex_extend_right(
            ya + moa + da + u + ha + mia + sa + u,
            yb + mob + db + u + hb + mib + sb + u,
            msa,
            msb,
        );
    } else if a.minute != b.minute {
        lemma_pad2_lex(a.minute as int, b.minute as int);
        lemma_lex_extend_equal_prefix(ya + moa + da + u + ha, mia, mib);
        lemma_lex_extend_right(ya + moa + da + u + ha + mia, yb + mob + db + u + hb + mib, sa, sb);
        lemma_lex_extend_right(
            ya + moa + da + u + ha + mia + sa,
            yb + mob + db + u + hb + mib + sb,
            u,
            u,
        );
        lemma_lex_extend_right(
            ya + moa + da + u + ha + mia + sa + u,
            yb + mob + db + u + hb + mib + sb + u,
            msa,
            msb,
        );
    } else if a.second != b.second {
        lemma_pad2_lex(a.second as int, b.second as int);
        lemma_lex_extend_equal_prefix(ya + moa + da + u + ha + mia, sa, sb);
        lemma_lex_extend_right(
            ya + moa + da + u + ha + mia + sa,
            yb + mob + db + u + hb + mib + sb,
            u,
            u,
        );
        lemma_lex_extend_right(
            ya + moa + da + u + ha + mia + sa + u,
            yb + mob + db + u + hb + mib + sb + u,
            msa,
            msb,
        );
    } else {
        lemma_pad3_lex(a.millisecond as int, b.millisecond as int);
        lemma_lex_extend_equal_prefix(ya + moa + da + u + ha + mia + sa + u, msa, msb);
    }
}

} // verus!
