//! The sexagenary cycle: ten heavenly stems, twelve earthly branches, and the
//! sixty stem-branch pairs in which both advance in lock-step.
//!
//! Every value is modelled by its position in its cycle (`index`), and every
//! operation is exact modular arithmetic on that position.
use vstd::prelude::*;
use vstd::string::*;
use vstd::arithmetic::div_mod::{
    lemma_add_mod_noop, lemma_add_mod_noop_right, lemma_fundamental_div_mod, lemma_mod_mod,
    lemma_mod_bound, lemma_mod_multiples_basic, lemma_mod_twice, lemma_small_mod,
    lemma_sub_mod_noop,
};

verus! {

/// A heavenly stem (天干), one of a cycle of ten.
#[derive(Clone, Copy, PartialEq, Eq, Debug, Structural)]
pub enum TianGan {
    /// 甲
    Jia,
    /// 乙
    Yi,
    /// 丙
    Bing,
    /// 丁
    Ding,
    /// 戊
    Wu,
    /// 己
    Ji,
    /// 庚
    Geng,
    /// 辛
    Xin,
    /// 壬
    Ren,
    /// 癸
    Gui,
}

/// An earthly branch (地支), one of a cycle of twelve.
#[derive(Clone, Copy, PartialEq, Eq, Debug, Structural)]
pub enum DiZhi {
    /// 子
    Zi,
    /// 丑
    Chou,
    /// 寅
    Yin,
    /// 卯
    Mao,
    /// 辰
    Chen,
    /// 巳
    Si,
    /// 午
    Wu,
    /// 未
    Wei,
    /// 申
    Shen,
    /// 酉
    You,
    /// 戌
    Xu,
    /// 亥
    Hai,
}

/// A stem-branch pair (干支). Of the 120 pairs of a stem and a branch, the
/// sixty whose two positions have the same parity form the cycle; those are
/// the well-formed values.
#[derive(Clone, Copy, PartialEq, Eq, Debug, Structural)]
pub struct GanZhi {
    pub gan: TianGan,
    pub zhi: DiZhi,
}

impl TianGan {
    /// Position in the cycle, 0 for 甲 to 9 for 癸.
    pub open spec fn index(self) -> int {
        match self {
            TianGan::Jia => 0,
            TianGan::Yi => 1,
            TianGan::Bing => 2,
            TianGan::Ding => 3,
            TianGan::Wu => 4,
            TianGan::Ji => 5,
            TianGan::Geng => 6,
            TianGan::Xin => 7,
            TianGan::Ren => 8,
            TianGan::Gui => 9,
        }
    }

    /// The stem at position `i` modulo 10.
    pub open spec fn at(i: int) -> TianGan {
        let k = i % 10;
        if k == 0 {
            TianGan::Jia
        } else if k == 1 {
            TianGan::Yi
        } else if k == 2 {
            TianGan::Bing
        } else if k == 3 {
            TianGan::Ding
        } else if k == 4 {
            TianGan::Wu
        } else if k == 5 {
            TianGan::Ji
        } else if k == 6 {
            TianGan::Geng
        } else if k == 7 {
            TianGan::Xin
        } else if k == 8 {
            TianGan::Ren
        } else {
            TianGan::Gui
        }
    }

    /// The stem `n` places further round the cycle (back, for negative `n`).
    pub open spec fn plus_spec(self, n: int) -> TianGan {
        TianGan::at(self.index() + n)
    }

    /// How many places `self` lies after `other`, in `0..10`.
    pub open spec fn minus_spec(self, other: TianGan) -> int {
        (self.index() - other.index()) % 10
    }

    /// The one-character name.
    pub open spec fn name_spec(self) -> Seq<char> {
        match self {
            TianGan::Jia => "甲"@,
            TianGan::Yi => "乙"@,
            TianGan::Bing => "丙"@,
            TianGan::Ding => "丁"@,
            TianGan::Wu => "戊"@,
            TianGan::Ji => "己"@,
            TianGan::Geng => "庚"@,
            TianGan::Xin => "辛"@,
            TianGan::Ren => "壬"@,
            TianGan::Gui => "癸"@,
        }
    }

    pub fn ordinal(&self) -> (r: u8)
        ensures
            r as int == self.index(),
            r < 10,
    {
        match self {
            TianGan::Jia => 0,
            TianGan::Yi => 1,
            TianGan::Bing => 2,
            TianGan::Ding => 3,
            TianGan::Wu => 4,
            TianGan::Ji => 5,
            TianGan::Geng => 6,
            TianGan::Xin => 7,
            TianGan::Ren => 8,
            TianGan::Gui => 9,
        }
    }

    pub fn from_index(i: i64) -> (r: TianGan)
        ensures
            r == TianGan::at(i as int),
            r.index() == (i as int) % 10,
    {
        let k: i64 = match i.checked_rem_euclid(10) {
            Some(k) => k,
            None => 0,
        };
        if k == 0 {
            TianGan::Jia
        } else if k == 1 {
            TianGan::Yi
        } else if k == 2 {
            TianGan::Bing
        } else if k == 3 {
            TianGan::Ding
        } else if k == 4 {
            TianGan::Wu
        } else if k == 5 {
            TianGan::Ji
        } else if k == 6 {
            TianGan::Geng
        } else if k == 7 {
            TianGan::Xin
        } else if k == 8 {
            TianGan::Ren
        } else {
            TianGan::Gui
        }
    }

    pub fn plus(&self, n: i64) -> (r: TianGan)
        ensures
            r == self.plus_spec(n as int),
            r.index() == (self.index() + n) % 10,
    {
        let k: i64 = match n.checked_rem_euclid(10) {
            Some(k) => k,
            None => 0,
        };
        let o: i64 = self.ordinal() as i64;
        TianGan::from_index(o + k)
    }

    pub fn minus(&self, other: &TianGan) -> (r: u8)
        ensures
            r as int == self.minus_spec(*other),
            r < 10,
    {
        let a: u8 = self.ordinal();
        let b: u8 = other.ordinal();
        if a >= b {
            a - b
        } else {
            a + 10 - b
        }
    }

    pub fn name(&self) -> (s: String)
        ensures
            s@ == self.name_spec(),
    {
        match self {
            TianGan::Jia => "甲".to_owned(),
            TianGan::Yi => "乙".to_owned(),
            TianGan::Bing => "丙".to_owned(),
            TianGan::Ding => "丁".to_owned(),
            TianGan::Wu => "戊".to_owned(),
            TianGan::Ji => "己".to_owned(),
            TianGan::Geng => "庚".to_owned(),
            TianGan::Xin => "辛".to_owned(),
            TianGan::Ren => "壬".to_owned(),
            TianGan::Gui => "癸".to_owned(),
        }
    }
}

impl DiZhi {
    /// Position in the cycle, 0 for 子 to 11 for 亥.
    pub open spec fn index(self) -> int {
        match self {
            DiZhi::Zi => 0,
            DiZhi::Chou => 1,
            DiZhi::Yin => 2,
            DiZhi::Mao => 3,
            DiZhi::Chen => 4,
            DiZhi::Si => 5,
            DiZhi::Wu => 6,
            DiZhi::Wei => 7,
            DiZhi::Shen => 8,
            DiZhi::You => 9,
            DiZhi::Xu => 10,
            DiZhi::Hai => 11,
        }
    }

    /// The branch at position `i` modulo 12.
    pub open spec fn at(i: int) -> DiZhi {
        let k = i % 12;
        if k == 0 {
            DiZhi::Zi
        } else if k == 1 {
            DiZhi::Chou
        } else if k == 2 {
            DiZhi::Yin
        } else if k == 3 {
            DiZhi::Mao
        } else if k == 4 {
            DiZhi::Chen
        } else if k == 5 {
            DiZhi::Si
        } else if k == 6 {
            DiZhi::Wu
        } else if k == 7 {
            DiZhi::Wei
        } else if k == 8 {
            DiZhi::Shen
        } else if k == 9 {
            DiZhi::You
        } else if k == 10 {
            DiZhi::Xu
        } else {
            DiZhi::Hai
        }
    }

    /// The branch `n` places further round the cycle (back, for negative `n`).
    pub open spec fn plus_spec(self, n: int) -> DiZhi {
        DiZhi::at(self.index() + n)
    }

    /// How many places `self` lies after `other`, in `0..12`.
    pub open spec fn minus_spec(self, other: DiZhi) -> int {
        (self.index() - other.index()) % 12
    }

    /// The one-character name.
    pub open spec fn name_spec(self) -> Seq<char> {
        match self {
            DiZhi::Zi => "子"@,
            DiZhi::Chou => "丑"@,
            DiZhi::Yin => "寅"@,
            DiZhi::Mao => "卯"@,
            DiZhi::Chen => "辰"@,
            DiZhi::Si => "巳"@,
            DiZhi::Wu => "午"@,
            DiZhi::Wei => "未"@,
            DiZhi::Shen => "申"@,
            DiZhi::You => "酉"@,
            DiZhi::Xu => "戌"@,
            DiZhi::Hai => "亥"@,
        }
    }

    pub fn ordinal(&self) -> (r: u8)
        ensures
            r as int == self.index(),
            r < 12,
    {
        match self {
            DiZhi::Zi => 0,
            DiZhi::Chou => 1,
            DiZhi::Yin => 2,
            DiZhi::Mao => 3,
            DiZhi::Chen => 4,
            DiZhi::Si => 5,
            DiZhi::Wu => 6,
            DiZhi::Wei => 7,
            DiZhi::Shen => 8,
            DiZhi::You => 9,
            DiZhi::Xu => 10,
            DiZhi::Hai => 11,
        }
    }

    pub fn from_index(i: i64) -> (r: DiZhi)
        ensures
            r == DiZhi::at(i as int),
            r.index() == (i as int) % 12,
    {
        let k: i64 = match i.checked_rem_euclid(12) {
            Some(k) => k,
            None => 0,
        };
        if k == 0 {
            DiZhi::Zi
        } else if k == 1 {
            DiZhi::Chou
        } else if k == 2 {
            DiZhi::Yin
        } else if k == 3 {
            DiZhi::Mao
        } else if k == 4 {
            DiZhi::Chen
        } else if k == 5 {
            DiZhi::Si
        } else if k == 6 {
            DiZhi::Wu
        } else if k == 7 {
            DiZhi::Wei
        } else if k == 8 {
            DiZhi::Shen
        } else if k == 9 {
            DiZhi::You
        } else if k == 10 {
            DiZhi::Xu
        } else {
            DiZhi::Hai
        }
    }

    pub fn plus(&self, n: i64) -> (r: DiZhi)
        ensures
            r == self.plus_spec(n as int),
            r.index() == (self.index() + n) % 12,
    {
        let k: i64 = match n.checked_rem_euclid(12) {
            Some(k) => k,
            None => 0,
        };
        let o: i64 = self.ordinal() as i64;
        DiZhi::from_index(o + k)
    }

    pub fn minus(&self, other: &DiZhi) -> (r: u8)
        ensures
            r as int == self.minus_spec(*other),
            r < 12,
    {
        let a: u8 = self.ordinal();
        let b: u8 = other.ordinal();
        if a >= b {
            a - b
        } else {
            a + 12 - b
        }
    }

    pub fn name(&self) -> (s: String)
        ensures
            s@ == self.name_spec(),
    {
        match self {
            DiZhi::Zi => "子".to_owned(),
            DiZhi::Chou => "丑".to_owned(),
            DiZhi::Yin => "寅".to_owned(),
            DiZhi::Mao => "卯".to_owned(),
            DiZhi::Chen => "辰".to_owned(),
            DiZhi::Si => "巳".to_owned(),
            DiZhi::Wu => "午".to_owned(),
            DiZhi::Wei => "未".to_owned(),
            DiZhi::Shen => "申".to_owned(),
            DiZhi::You => "酉".to_owned(),
            DiZhi::Xu => "戌".to_owned(),
            DiZhi::Hai => "亥".to_owned(),
        }
    }
}

impl GanZhi {
    /// The pair belongs to the cycle of sixty: stem and branch have the same
    /// parity.
    pub open spec fn wf(self) -> bool {
        self.gan.index() % 2 == self.zhi.index() % 2
    }

    /// Position in the cycle of sixty, 0 for 甲子 to 59 for 癸亥: for a
    /// well-formed pair, the one number below 60 that leaves the stem's
    /// position modulo 10 and the branch's modulo 12.
    pub open spec fn index(self) -> int {
        (6 * self.gan.index() - 5 * self.zhi.index()) % 60
    }

    /// The pair at position `i` modulo 60.
    pub open spec fn at(i: int) -> GanZhi {
        GanZhi { gan: TianGan::at(i), zhi: DiZhi::at(i) }
    }

    /// The pair `n` places further round the cycle: stem and branch each
    /// advance by `n` in their own cycle.
    pub open spec fn plus_spec(self, n: int) -> GanZhi {
        GanZhi { gan: self.gan.plus_spec(n), zhi: self.zhi.plus_spec(n) }
    }

    /// How many places `self` lies after `other` in the cycle, in `0..60`.
    pub open spec fn minus_spec(self, other: GanZhi) -> int {
        (self.index() - other.index()) % 60
    }

    /// The two-character name, stem first.
    pub open spec fn name_spec(self) -> Seq<char> {
        self.gan.name_spec() + self.zhi.name_spec()
    }

    /// Pairs a stem with a branch; `None` when the two cannot meet in the
    /// cycle.
    pub fn new(gan: &TianGan, zhi: &DiZhi) -> (r: Option<GanZhi>)
        ensures
            r == (if gan.index() % 2 == zhi.index() % 2 {
                Some(GanZhi { gan: *gan, zhi: *zhi })
            } else {
                None
            }),
            r matches Some(g) ==> g.wf(),
    {
        if gan.ordinal() % 2 == zhi.ordinal() % 2 {
            Some(GanZhi { gan: *gan, zhi: *zhi })
        } else {
            None
        }
    }

    /// The pair at position `i` of the cycle, counted from 甲子 and wrapping
    /// every sixty.
    pub fn from_index(i: i64) -> (r: GanZhi)
        ensures
            r == GanZhi::at(i as int),
            r.wf(),
            r.index() == (i as int) % 60,
    {
        proof {
            lemma_at_index(i as int);
        }
        GanZhi { gan: TianGan::from_index(i), zhi: DiZhi::from_index(i) }
    }

    pub fn gan(&self) -> (r: TianGan)
        ensures
            r == self.gan,
    {
        self.gan
    }

    pub fn zhi(&self) -> (r: DiZhi)
        ensures
            r == self.zhi,
    {
        self.zhi
    }

    pub fn ordinal(&self) -> (r: u8)
        ensures
            r as int == self.index(),
            r < 60,
    {
        let g: i64 = self.gan.ordinal() as i64;
        let z: i64 = self.zhi.ordinal() as i64;
        let v: i64 = 6 * g - 5 * z;
        let k: i64 = match v.checked_rem_euclid(60) {
            Some(k) => k,
            None => 0,
        };
        k as u8
    }

    pub fn plus(&self, n: i64) -> (r: GanZhi)
        ensures
            r == self.plus_spec(n as int),
            self.wf() ==> r.wf() && r.index() == (self.index() + n) % 60,
    {
        proof {
            if self.wf() {
                lemma_plus_index(*self, n as int);
            }
        }
        GanZhi { gan: self.gan.plus(n), zhi: self.zhi.plus(n) }
    }

    pub fn minus(&self, other: &GanZhi) -> (r: u8)
        ensures
            r as int == self.minus_spec(*other),
            r < 60,
    {
        let a: u8 = self.ordinal();
        let b: u8 = other.ordinal();
        if a >= b {
            a - b
        } else {
            a + 60 - b
        }
    }

    pub fn name(&self) -> (s: String)
        ensures
            s@ == self.name_spec(),
    {
        let mut s = self.gan.name();
        let z = self.zhi.name();
        s.append(z.as_str());
        s
    }
}

/// A stem's position names it: `at` and `index` are inverse on `0..10`.
pub proof fn lemma_stem_round_trip(g: TianGan, i: int)
    ensures
        TianGan::at(g.index()) == g,
        0 <= g.index() < 10,
        TianGan::at(i).index() == i % 10,
{
}

/// A branch's position names it: `at` and `index` are inverse on `0..12`.
pub proof fn lemma_branch_round_trip(z: DiZhi, i: int)
    ensures
        DiZhi::at(z.index()) == z,
        0 <= z.index() < 12,
        DiZhi::at(i).index() == i % 12,
{
}

/// The position of a well-formed pair determines both parts, and the pair
/// is the one found at that position.
pub proof fn lemma_index_parts(g: GanZhi)
    requires
        g.wf(),
    ensures
        0 <= g.index() < 60,
        g.index() % 10 == g.gan.index(),
        g.index() % 12 == g.zhi.index(),
        GanZhi::at(g.index()) == g,
{
    let s = g.gan.index();
    let b = g.zhi.index();
    assert(0 <= s < 10 && 0 <= b < 12);
    let v = 6 * s - 5 * b;
    let i = v % 60;
    assert(i % 10 == s && i % 12 == b) by {
        // s and b have the same parity, so v - s is a multiple of 10 and
        // v - b a multiple of 12; i differs from v by a multiple of 60.
        let h = (s - b) / 2;
        assert(s - b == 2 * h);
        assert(v - s == 10 * h);
        assert(v - b == 12 * h);
        let q = v / 60;
        assert(v == 60 * q + i);
        assert(i == s + 10 * (h - 6 * q));
        assert(i == b + 12 * (h - 5 * q));
    }
}

/// Every position holds a well-formed pair, at that position modulo 60.
pub proof fn lemma_at_index(i: int)
    ensures
        GanZhi::at(i).wf(),
        GanZhi::at(i).index() == i % 60,
{
    let s = i % 10;
    let b = i % 12;
    assert(TianGan::at(i).index() == s);
    assert(DiZhi::at(i).index() == b);
    let qs = i / 10;
    let qb = i / 12;
    assert(i == 10 * qs + s);
    assert(i == 12 * qb + b);
    assert(s % 2 == i % 2) by {
        assert(i == 2 * (5 * qs) + s);
    }
    assert(b % 2 == i % 2) by {
        assert(i == 2 * (6 * qb) + b);
    }
    let v = 6 * s - 5 * b;
    assert(v == i + 60 * (qb - qs));
    assert(v % 60 == i % 60) by {
        let q = i / 60;
        let r = i % 60;
        assert(i == 60 * q + r);
        assert(v == 60 * (q + qb - qs) + r);
    }
}

/// Numbers that agree modulo `m` still agree after the same shift.
proof fn lemma_residue_shift(i: int, s: int, n: int, m: int)
    requires
        m > 0,
        i % m == s % m,
    ensures
        (i + n) % m == (s + n) % m,
{
    lemma_add_mod_noop(i, n, m);
    lemma_add_mod_noop(s, n, m);
}

/// Advancing a well-formed pair by `n` advances its position by `n` modulo
/// 60, and gives a well-formed pair.
pub proof fn lemma_plus_index(g: GanZhi, n: int)
    requires
        g.wf(),
    ensures
        g.plus_spec(n).wf(),
        g.plus_spec(n).index() == (g.index() + n) % 60,
        g.plus_spec(n) == GanZhi::at(g.index() + n),
{
    let i = g.index();
    let s = g.gan.index();
    let b = g.zhi.index();
    assert(i % 10 == s && i % 12 == b) by {
        lemma_index_parts(g);
    }
    assert(0 <= s < 10 && 0 <= b < 12);
    assert((i + n) % 10 == (s + n) % 10) by {
        lemma_small_mod(s as nat, 10);
        lemma_mod_twice(i, 10);
        lemma_residue_shift(i, s, n, 10);
    }
    assert((i + n) % 12 == (b + n) % 12) by {
        lemma_small_mod(b as nat, 12);
        lemma_mod_twice(i, 12);
        lemma_residue_shift(i, b, n, 12);
    }
    assert(g.plus_spec(n) == GanZhi::at(i + n));
    lemma_at_index(i + n);
}

/// Adding to a residue is adding to the number: `((x mod m) + y) mod m` is
/// `(x + y) mod m`.
proof fn lemma_mod_shift(x: int, y: int, m: int)
    requires
        m > 0,
    ensures
        ((x % m) + y) % m == (x + y) % m,
        0 <= x % m < m,
{
    lemma_add_mod_noop(x, y, m);
    lemma_add_mod_noop(x % m, y, m);
    lemma_mod_twice(x, m);
    lemma_mod_bound(x, m);
}

/// Offsets compose: advancing by `a` and then by `b` is advancing by
/// `a + b`, for stems, for branches, and so for pairs.
pub proof fn lemma_plus_composes(g: GanZhi, a: int, b: int)
    ensures
        g.gan.plus_spec(a).plus_spec(b) == g.gan.plus_spec(a + b),
        g.zhi.plus_spec(a).plus_spec(b) == g.zhi.plus_spec(a + b),
        g.plus_spec(a).plus_spec(b) == g.plus_spec(a + b),
{
    let s = g.gan.index();
    lemma_stem_round_trip(g.gan, s + a);
    lemma_mod_shift(s + a, b, 10);
    let z = g.zhi.index();
    lemma_branch_round_trip(g.zhi, z + a);
    lemma_mod_shift(z + a, b, 12);
}

/// The cycle closes after sixty steps, and after no fewer: advancing a
/// well-formed pair by `n` gives the pair back exactly when 60 divides `n`.
pub proof fn lemma_plus_period(g: GanZhi, n: int)
    requires
        g.wf(),
    ensures
        g.plus_spec(n) == g <==> n % 60 == 0,
{
    lemma_plus_index(g, n);
    lemma_index_parts(g);
    let i = g.index();
    let r = (i + n) % 60;
    lemma_mod_bound(i + n, 60);
    if n % 60 == 0 {
        lemma_add_mod_noop(i, n, 60);
        lemma_small_mod(i as nat, 60);
        assert(r == i);
        lemma_at_same_residue(i + n, i);
    }
    if g.plus_spec(n) == g {
        assert(r == i);
        lemma_fundamental_div_mod(i + n, 60);
        let q = (i + n) / 60;
        assert(n == 60 * q);
        lemma_mod_multiples_basic(q, 60);
    }
}

/// Positions that agree modulo 60 hold the same pair.
pub proof fn lemma_at_same_residue(i: int, j: int)
    requires
        i % 60 == j % 60,
    ensures
        GanZhi::at(i) == GanZhi::at(j),
{
    lemma_mod_mod(i, 10, 6);
    lemma_mod_mod(j, 10, 6);
    lemma_mod_mod(i, 12, 5);
    lemma_mod_mod(j, 12, 5);
}

/// Two facts about residues modulo 60 that carry the pair lemmas: going on
/// by `n` and measuring back gives `n mod 60`, and going on by a measured
/// difference arrives.
proof fn lemma_cycle_arith(i: int, j: int, n: int)
    requires
        0 <= i < 60,
    ensures
        ((i + n) % 60 - i) % 60 == n % 60,
        (j + (i - j) % 60) % 60 == i,
{
    lemma_sub_mod_noop(i + n, i, 60);
    lemma_sub_mod_noop((i + n) % 60, i, 60);
    lemma_mod_twice(i + n, 60);
    lemma_add_mod_noop_right(j, i - j, 60);
    lemma_small_mod(i as nat, 60);
}

/// `minus` undoes `plus`: a well-formed pair advanced by `n` lies
/// `n mod 60` places after where it started, and advancing `other` by the
/// difference to `g` reaches `g`.
pub proof fn lemma_minus_plus(g: GanZhi, other: GanZhi, n: int)
    requires
        g.wf(),
        other.wf(),
    ensures
        g.plus_spec(n).minus_spec(g) == n % 60,
        other.plus_spec(g.minus_spec(other)) == g,
{
    let i = g.index();
    let j = other.index();
    let d = (i - j) % 60;
    assert(0 <= i < 60 && GanZhi::at(i) == g) by {
        lemma_index_parts(g);
    }
    assert(g.plus_spec(n).index() == (i + n) % 60) by {
        lemma_plus_index(g, n);
    }
    assert(other.plus_spec(d) == GanZhi::at(j + d)) by {
        lemma_plus_index(other, d);
    }
    lemma_cycle_arith(i, j, n);
    assert(GanZhi::at(j + d) == GanZhi::at(i)) by {
        lemma_small_mod(i as nat, 60);
        lemma_at_same_residue(j + d, i);
    }
}

} // verus!
