//! Helpers of the level viewer: sprite directions, palette and pixel packing,
//! the cycle of landscape shader variants, marker colours, the help text, and
//! the light option.
use vstd::prelude::*;
use crate::target::div_toward_zero;

verus! {

/// Rust's remainder: the sign follows the dividend.
pub open spec fn rem_toward_zero(a: int, d: int) -> int {
    a - d * div_toward_zero(a, d)
}

/// Sprite sheet row and mirroring of display direction `dir`: directions 0-4
/// use rows 0-4, directions 5-7 mirror rows 3-1, others use row 0.
pub open spec fn source_direction(dir: usize) -> (usize, bool) {
    if dir <= 4 {
        (dir, false)
    } else if dir <= 7 {
        ((8 - dir) as usize, true)
    } else {
        (0, false)
    }
}

/// Returns (source direction row, mirrored) for display direction `dir`.
pub fn get_source_direction(dir: usize) -> (r: (usize, bool))
    ensures
        r == source_direction(dir),
{
    match dir {
        0 => (0, false),
        1 => (1, false),
        2 => (2, false),
        3 => (3, false),
        4 => (4, false),
        5 => (3, true),
        6 => (2, true),
        7 => (1, true),
        _ => (0, false),
    }
}

/// Facing of each tribe in angle units: north, south, east, west; others east.
pub open spec fn tribe_facing(tribe_index: u8) -> u16 {
    if tribe_index == 0 {
        0x200
    } else if tribe_index == 1 {
        0x600
    } else if tribe_index == 3 {
        0x400
    } else {
        0x000
    }
}

/// Fixed facing direction of a tribe, in angle units (0x000-0x7FF).
pub fn tribe_facing_direction(tribe_index: u8) -> (r: u16)
    ensures
        r == tribe_facing(tribe_index),
{
    match tribe_index {
        0 => 0x200,
        1 => 0x600,
        2 => 0x000,
        3 => 0x400,
        _ => 0x000,
    }
}

/// The camera rotation in angle units (0-2047) of a camera angle in degrees.
pub open spec fn camera_rotation(camera_angle_z: i16) -> int {
    (rem_toward_zero(div_toward_zero(camera_angle_z * 2048, 360), 2048) + 2048) % 2048
}

/// The display direction (0-7) of a unit facing `facing` seen from camera angle `camera_angle_z`.
pub open spec fn sprite_direction(camera_angle_z: i16, facing: u16) -> usize {
    ((((camera_rotation(camera_angle_z) - facing - 0x380) as i32) & 0x700i32) >> 8u32) as usize
}

/// Display sprite direction (0-7) from the camera angle (degrees) and the
/// unit's facing (angle units): `((rotation - facing - 0x380) & 0x700) >> 8`.
pub fn sprite_direction_from_angle(camera_angle_z: i16, unit_facing_game: u16) -> (r: usize)
    ensures
        r == sprite_direction(camera_angle_z, unit_facing_game),
        r < 8,
{
    let scaled: i32 = (camera_angle_z as i32) * 2048;
    let q: i32 = if scaled >= 0 { scaled / 360 } else { -((-scaled) / 360) };
    assert(q == div_toward_zero(camera_angle_z * 2048, 360));
    let m: i32 = if q >= 0 { q % 2048 } else { -((-q) % 2048) };
    assert(m == rem_toward_zero(q as int, 2048)) by (nonlinear_arith)
        requires
            q >= 0 ==> m == q % 2048,
            q < 0 ==> m == -((-q) % 2048),
            q >= 0 ==> div_toward_zero(q as int, 2048) == q / 2048,
            q < 0 ==> div_toward_zero(q as int, 2048) == -((-q) / 2048),
    ;
    let camera_rot: i32 = (m + 2048) % 2048;
    let x: i32 = camera_rot - unit_facing_game as i32 - 0x380;
    let raw: i32 = x & 0x700;
    assert(0 <= raw && (raw >> 8u32) < 8) by (bit_vector)
        requires
            raw == x & 0x700i32,
    ;
    (raw >> 8u32) as usize
}

/// Byte `k` of `p` widened, or zero past its end.
pub open spec fn byte_or_zero(p: Seq<u8>, k: int) -> u32 {
    if k < p.len() {
        p[k] as u32
    } else {
        0
    }
}

/// Four bytes packed little-endian into a word.
pub open spec fn pack4(a: u32, b: u32, c: u32, d: u32) -> u32 {
    a | (b << 8u32) | (c << 16u32) | (d << 24u32)
}

/// Palette bytes packed four to a word (red lowest); a short last group is
/// completed with zeros.
pub fn pack_palette_rgba(palette: &[u8]) -> (r: Vec<u32>)
    ensures
        r@.len() == (palette@.len() + 3) / 4,
        forall|i: int|
            0 <= i < r@.len() ==> #[trigger] r@[i] == pack4(
                byte_or_zero(palette@, 4 * i),
                byte_or_zero(palette@, 4 * i + 1),
                byte_or_zero(palette@, 4 * i + 2),
                byte_or_zero(palette@, 4 * i + 3),
            ),
{
    let n = palette.len();
    let groups: usize = if n % 4 == 0 { n / 4 } else { n / 4 + 1 };
    assert(groups == (n + 3) / 4) by (nonlinear_arith)
        requires
            n % 4 == 0 ==> groups == n / 4,
            n % 4 != 0 ==> groups == n / 4 + 1,
    ;
    let mut out: Vec<u32> = Vec::new();
    let mut j: usize = 0;
    while j < groups
        invariant
            n == palette@.len(),
            groups == (n + 3) / 4,
            0 <= j <= groups,
            out@.len() == j,
            forall|i: int|
                0 <= i < out@.len() ==> #[trigger] out@[i] == pack4(
                    byte_or_zero(palette@, 4 * i),
                    byte_or_zero(palette@, 4 * i + 1),
                    byte_or_zero(palette@, 4 * i + 2),
                    byte_or_zero(palette@, 4 * i + 3),
                ),
        decreases groups - j,
    {
        assert(4 * j < n) by (nonlinear_arith)
            requires
                j < groups,
                groups == (n + 3) / 4,
        ;
        let k = 4 * j;
        let r: u32 = palette[k] as u32;
        let g: u32 = if k + 1 < n { palette[k + 1] as u32 } else { 0 };
        let b: u32 = if k + 2 < n { palette[k + 2] as u32 } else { 0 };
        let a: u32 = if k + 3 < n { palette[k + 3] as u32 } else { 0 };
        out.push(r | (g << 8u32) | (b << 16u32) | (a << 24u32));
        j = j + 1;
    }
    out
}

/// `out` is `rgb` with an opaque alpha byte after each three bytes.
pub open spec fn rgba_of(rgb: Seq<u8>, out: Seq<u8>) -> bool {
    &&& out.len() == 4 * (rgb.len() / 3)
    &&& forall|i: int|
        0 <= i < rgb.len() / 3 ==> {
            &&& #[trigger] out[4 * i] == rgb[3 * i]
            &&& out[4 * i + 1] == rgb[3 * i + 1]
            &&& out[4 * i + 2] == rgb[3 * i + 2]
            &&& out[4 * i + 3] == 255
        }
}

/// RGB pixels with an opaque alpha byte added to each.
pub fn rgb_to_rgba(rgb: &[u8]) -> (r: Vec<u8>)
    requires
        rgb@.len() % 3 == 0,
    ensures
        rgba_of(rgb@, r@),
{
    let n = rgb.len();
    let mut out: Vec<u8> = Vec::new();
    let mut p: usize = 0;
    while p < n / 3
        invariant
            n == rgb@.len(),
            n % 3 == 0,
            0 <= p <= n / 3,
            out@.len() == 4 * p,
            forall|i: int|
                0 <= i < p ==> {
                    &&& #[trigger] out@[4 * i] == rgb@[3 * i]
                    &&& out@[4 * i + 1] == rgb@[3 * i + 1]
                    &&& out@[4 * i + 2] == rgb@[3 * i + 2]
                    &&& out@[4 * i + 3] == 255
                },
        decreases n / 3 - p,
    {
        assert(3 * p + 2 < n) by (nonlinear_arith)
            requires
                p < n / 3,
                n % 3 == 0,
        ;
        let ghost before = out@;
        out.push(rgb[3 * p]);
        out.push(rgb[3 * p + 1]);
        out.push(rgb[3 * p + 2]);
        out.push(255);
        assert(out@ =~= before + seq![rgb@[3 * p as int], rgb@[3 * p + 1], rgb@[3 * p + 2], 255u8]);
        assert forall|i: int| 0 <= i <= p implies {
            &&& #[trigger] out@[4 * i] == rgb@[3 * i]
            &&& out@[4 * i + 1] == rgb@[3 * i + 1]
            &&& out@[4 * i + 2] == rgb@[3 * i + 2]
            &&& out@[4 * i + 3] == 255
        } by {
            if i < p {
                assert(out@[4 * i] == before[4 * i]);
                assert(out@[4 * i + 1] == before[4 * i + 1]);
                assert(out@[4 * i + 2] == before[4 * i + 2]);
                assert(out@[4 * i + 3] == before[4 * i + 3]);
            }
        }
        p = p + 1;
    }
    assert(rgba_of(rgb@, out@));
    out
}

/// Marker colours of the object kinds.
pub const OBJ_COLORS: [[u8; 3]; 9] = [
    [255, 0, 0],
    [128, 0, 128],
    [0, 255, 0],
    [64, 64, 128],
    [128, 0, 128],
    [0, 255, 255],
    [0, 0, 255],
    [0, 64, 0],
    [128, 64, 0],
];

/// The marker colours of the object kinds, in order.
pub fn obj_colors() -> (r: Vec<[u8; 3]>)
    ensures
        r@ == OBJ_COLORS@,
{
    let table = OBJ_COLORS;
    let mut out: Vec<[u8; 3]> = Vec::new();
    let mut i: usize = 0;
    while i < 9
        invariant
            table@ == OBJ_COLORS@,
            0 <= i <= 9,
            out@ == table@.take(i as int),
        decreases 9 - i,
    {
        out.push(table[i]);
        i = i + 1;
        assert(out@ =~= table@.take(i as int));
    }
    assert(table@.take(9) =~= table@);
    out
}

/// The viewer's key help.
pub fn help_text() -> (r: &'static str)
    ensures
        r@ == "Q/E:    Rotate\nUp/Dn:  Tilt\nWASD:   Pan terrain\nSpace:  Center on blue\nB/V:    Next/Prev level\nN/M:    Next/Prev shader\nC:      Toggle curvature\n[/]:    Curvature +/-\nO:      Toggle objects\nScroll: Zoom\nEsc:    Quit"@,
{
    "Q/E:    Rotate\nUp/Dn:  Tilt\nWASD:   Pan terrain\nSpace:  Center on blue\nB/V:    Next/Prev level\nN/M:    Next/Prev shader\nC:      Toggle curvature\n[/]:    Curvature +/-\nO:      Toggle objects\nScroll: Zoom\nEsc:    Quit"
}

/// The level after `n` in the viewer's cycle over levels 1 to 25 (key B):
/// 25 wraps round to 1.
pub open spec fn level_after(n: int) -> int {
    if (n + 1) % 26 == 0 {
        1
    } else {
        (n + 1) % 26
    }
}

/// The level before `n` in the viewer's cycle (key V): 1 wraps round to 25.
pub open spec fn level_before(n: int) -> int {
    if n == 1 {
        25
    } else {
        n - 1
    }
}

/// The next level to show.
pub fn next_level(n: u8) -> (r: u8)
    requires
        n <= 254,
    ensures
        r == level_after(n as int),
{
    let l: u8 = (n + 1) % 26;
    if l == 0 {
        1
    } else {
        l
    }
}

/// The previous level to show.
pub fn prev_level(n: u8) -> (r: u8)
    requires
        1 <= n,
    ensures
        r == level_before(n as int),
{
    if n == 1 {
        25
    } else {
        n - 1
    }
}

/// On the levels 1 to 25, stepping back undoes stepping forward and the
/// other way round, and both stay among those levels.
pub proof fn lemma_level_cycle_inverse(n: int)
    requires
        1 <= n <= 25,
    ensures
        1 <= level_after(n) <= 25,
        1 <= level_before(n) <= 25,
        level_before(level_after(n)) == n,
        level_after(level_before(n)) == n,
{
}

/// The index after `i` in a cycle of `len` variants.
pub open spec fn next_index(len: nat, i: nat) -> nat {
    if len == 0 {
        i
    } else {
        (i + 1) % len
    }
}

/// The index before `i` in a cycle of `len` variants.
pub open spec fn prev_index(len: nat, i: nat) -> nat {
    if len == 0 {
        i
    } else if i == 0 {
        (len - 1) as nat
    } else {
        (i - 1) as nat
    }
}

/// Stepping forward then back, or back then forward, through a nonempty cycle
/// returns to the same variant.
pub proof fn lemma_next_prev_inverse(len: nat, i: nat)
    requires
        i < len,
    ensures
        prev_index(len, next_index(len, i)) == i,
        next_index(len, prev_index(len, i)) == i,
        next_index(len, i) < len,
        prev_index(len, i) < len,
{
    if i + 1 == len {
        assert((i + 1) % len == 0) by (nonlinear_arith)
            requires
                i + 1 == len,
                len > 0,
        ;
    } else {
        assert((i + 1) % len == i + 1) by (nonlinear_arith)
            requires
                i + 1 < len,
        ;
    }
    if i == 0 {
        assert(((len - 1) as nat + 1) % len == 0) by (nonlinear_arith)
            requires
                len > 0,
        ;
    } else {
        assert(((i - 1) as nat + 1) % len == i) by (nonlinear_arith)
            requires
                0 < i < len,
        ;
    }
}

/// The shader variants of the landscape and the one in use.
pub struct LandscapeProgramContainer<T> {
    variants: Vec<T>,
    index: usize,
}

impl<T> LandscapeProgramContainer<T> {
    /// The variants, in the order they were added.
    pub closed spec fn variants(&self) -> Seq<T> {
        self.variants@
    }

    /// Index of the variant in use.
    pub closed spec fn index(&self) -> nat {
        self.index as nat
    }

    /// The index designates a variant whenever there is one, and is zero otherwise.
    pub closed spec fn wf(&self) -> bool {
        if self.variants@.len() == 0 {
            self.index == 0
        } else {
            self.index < self.variants@.len()
        }
    }

    /// No variant, index zero.
    pub fn new() -> (c: Self)
        ensures
            c.wf(),
            c.variants() == Seq::<T>::empty(),
            c.index() == 0,
    {
        LandscapeProgramContainer { variants: Vec::new(), index: 0 }
    }

    /// Append a variant; the one in use stays.
    pub fn add(&mut self, variant: T)
        requires
            old(self).wf(),
        ensures
            final(self).wf(),
            final(self).variants() == old(self).variants().push(variant),
            final(self).index() == old(self).index(),
    {
        self.variants.push(variant);
    }

    /// Use the next variant, wrapping to the first.
    pub fn next(&mut self)
        requires
            old(self).wf(),
        ensures
            final(self).wf(),
            final(self).variants() == old(self).variants(),
            final(self).index() == next_index(old(self).variants().len(), old(self).index()),
    {
        if self.variants.len() > 0 {
            proof {
                lemma_next_prev_inverse(self.variants@.len(), self.index as nat);
            }
            self.index = (self.index + 1) % self.variants.len();
        }
    }

    /// Use the previous variant, wrapping to the last.
    pub fn prev(&mut self)
        requires
            old(self).wf(),
        ensures
            final(self).wf(),
            final(self).variants() == old(self).variants(),
            final(self).index() == prev_index(old(self).variants().len(), old(self).index()),
    {
        if self.variants.len() == 0 {
            return;
        }
        self.index = if self.index == 0 { self.variants.len() - 1 } else { self.index - 1 };
    }

    /// The variant in use, if there is one.
    pub fn current(&self) -> (r: Option<&T>)
        requires
            self.wf(),
        ensures
            self.variants().len() == 0 ==> r is None,
            self.variants().len() > 0 ==> r == Some(&self.variants()[self.index() as int]),
    {
        if self.index < self.variants.len() {
            Some(&self.variants[self.index])
        } else {
            None
        }
    }
}


/// An ASCII decimal digit.
pub open spec fn is_digit(c: char) -> bool {
    '0' <= c && c <= '9'
}

/// The value of a string of decimal digits.
pub open spec fn digits_value(s: Seq<char>) -> int
    decreases s.len(),
{
    if s.len() == 0 {
        0
    } else {
        digits_value(s.drop_last()) * 10 + (s.last() as int - '0' as int)
    }
}

/// One or more decimal digits.
pub open spec fn unsigned_text(s: Seq<char>) -> bool {
    s.len() > 0 && forall|i: int| 0 <= i < s.len() ==> is_digit(#[trigger] s[i])
}

/// The 16-bit integer a text denotes, as `str::parse` reads it: an optional
/// `+` or `-`, then one or more decimal digits, the value in range.
pub open spec fn parse_i16_text(s: Seq<char>) -> Option<i16> {
    let signed = s.len() > 0 && (s[0] == '-' || s[0] == '+');
    let body = if signed { s.drop_first() } else { s };
    if !unsigned_text(body) {
        None
    } else {
        let v = if s.len() > 0 && s[0] == '-' { -digits_value(body) } else { digits_value(body) };
        if i16::MIN <= v <= i16::MAX {
            Some(v as i16)
        } else {
            None
        }
    }
}

proof fn lemma_digits_prefix(s: Seq<char>, k: int)
    requires
        0 <= k <= s.len(),
        forall|i: int| 0 <= i < s.len() ==> is_digit(#[trigger] s[i]),
    ensures
        0 <= digits_value(s.take(k)) <= digits_value(s),
    decreases s.len(),
{
    if k == s.len() {
        assert(s.take(k) =~= s);
        if s.len() > 0 {
            lemma_digits_prefix(s.drop_last(), k - 1);
            assert(s.drop_last().take(k - 1) =~= s.drop_last());
        }
    } else {
        lemma_digits_prefix(s.drop_last(), k);
        assert(s.drop_last().take(k) =~= s.take(k));
        lemma_digits_prefix(s.drop_last(), s.len() - 1);
        assert(s.drop_last().take(s.len() - 1) =~= s.drop_last());
        assert(is_digit(s.last()));
    }
}

/// A 16-bit integer in text, as `str::parse` reads it.
pub fn parse_i16(s: &str) -> (r: Option<i16>)
    ensures
        r == parse_i16_text(s@),
{
    let n = s.unicode_len();
    if n == 0 {
        return None;
    }
    let first = s.get_char(0);
    let neg = first == '-';
    let start: usize = if first == '-' || first == '+' { 1 } else { 0 };
    let ghost body = if start == 1 { s@.drop_first() } else { s@ };
    assert(body =~= s@.skip(start as int));
    if start >= n {
        return None;
    }
    let mut v: i32 = 0;
    let mut i: usize = start;
    while i < n
        invariant
            n == s@.len(),
            start <= i <= n,
            start < n,
            body == s@.skip(start as int),
            body == (if s@.len() > 0 && (s@[0] == '-' || s@[0] == '+') { s@.drop_first() } else { s@ }),
            neg == (s@.len() > 0 && s@[0] == '-'),
            forall|j: int| 0 <= j < i - start ==> is_digit(#[trigger] body[j]),
            v == digits_value(body.take(i - start)),
            0 <= v <= 32768,
        decreases n - i,
    {
        let c = s.get_char(i);
        assert(c == body[i - start]);
        if !('0' <= c && c <= '9') {
            return None;
        }
        let d: i32 = (c as u32 - '0' as u32) as i32;
        assert(body.take(i - start + 1).drop_last() =~= body.take(i - start));
        v = v * 10 + d;
        i = i + 1;
        if v > 32768 {
            proof {
                if unsigned_text(body) {
                    lemma_digits_prefix(body, i - start);
                }
            }
            return None;
        }
    }
    assert(body.take(n - start) =~= body);
    let val: i32 = if neg { -v } else { v };
    if val < -32768 || val > 32767 {
        None
    } else {
        Some(val as i16)
    }
}

/// Occurrences of `c` in `s`.
pub open spec fn count_char(s: Seq<char>, c: char) -> nat
    decreases s.len(),
{
    if s.len() == 0 {
        0
    } else {
        count_char(s.drop_last(), c) + if s.last() == c { 1nat } else { 0nat }
    }
}

/// Index of the first `c` in `s`, or -1.
pub open spec fn first_index(s: Seq<char>, c: char) -> int
    decreases s.len(),
{
    if s.len() == 0 {
        -1
    } else if first_index(s.drop_last(), c) >= 0 {
        first_index(s.drop_last(), c)
    } else if s.last() == c {
        s.len() - 1
    } else {
        -1
    }
}

proof fn lemma_first_index(s: Seq<char>, c: char)
    ensures
        -1 <= first_index(s, c) < s.len(),
        count_char(s, c) > 0 <==> first_index(s, c) >= 0,
    decreases s.len(),
{
    if s.len() > 0 {
        lemma_first_index(s.drop_last(), c);
    }
}

/// The light direction option `a;b`: exactly two parts separated by `;`,
/// each a 16-bit integer.
pub open spec fn light_option(s: Seq<char>) -> Option<(i16, i16)> {
    if count_char(s, ';') != 1 {
        None
    } else {
        let k = first_index(s, ';');
        match (parse_i16_text(s.take(k)), parse_i16_text(s.skip(k + 1))) {
            (Some(a), Some(b)) => Some((a, b)),
            _ => None,
        }
    }
}

/// Parse the light direction option `a;b`.
pub fn parse_light(s: &str) -> (r: Option<(i16, i16)>)
    ensures
        r == light_option(s@),
{
    let n = s.unicode_len();
    let mut count: usize = 0;
    let mut first: usize = 0;
    let mut i: usize = 0;
    assert(s@.take(0) =~= Seq::<char>::empty());
    while i < n
        invariant
            n == s@.len(),
            0 <= i <= n,
            count == count_char(s@.take(i as int), ';'),
            count <= i,
            count > 0 ==> first == first_index(s@.take(i as int), ';'),
        decreases n - i,
    {
        let c = s.get_char(i);
        assert(s@.take(i + 1).drop_last() =~= s@.take(i as int));
        assert(s@.take(i + 1).last() == c);
        proof {
            lemma_first_index(s@.take(i as int), ';');
        }
        if c == ';' {
            if count == 0 {
                first = i;
            }
            count = count + 1;
        }
        i = i + 1;
    }
    assert(s@.take(n as int) =~= s@);
    if count != 1 {
        return None;
    }
    proof {
        lemma_first_index(s@, ';');
    }
    let a = parse_i16(s.substring_char(0, first));
    let b = parse_i16(s.substring_char(first + 1, n));
    assert(s@.subrange(0, first as int) =~= s@.take(first as int));
    assert(s@.subrange(first + 1, n as int) =~= s@.skip(first + 1));
    match (a, b) {
        (Some(x), Some(y)) => Some((x, y)),
        _ => None,
    }
}

/// Of the eight display directions, 0 to 4 are drawn from their own rows
/// unmirrored and 5, 6 and 7 mirror the rows of 3, 2 and 1: a direction and
/// its reflection `8 - dir` share a row, the back half mirrored.
pub proof fn lemma_source_direction_mirror(dir: usize)
    ensures
        dir <= 4 ==> source_direction(dir) == (dir, false),
        1 <= dir <= 3 ==> source_direction((8 - dir) as usize) == (source_direction(dir).0, true),
        dir < 8 ==> source_direction(dir).0 <= 4 && (source_direction(dir).1 <==> dir >= 5),
{
}

/// Tribe 0 faces 0x200, tribe 1 0x600, tribe 2 0x000 and tribe 3 0x400:
/// tribes 0 and 1, and tribes 2 and 3, face opposite ways (half a turn,
/// 0x400 of the 0x800 angle units, apart).
pub proof fn lemma_tribe_facings(t: u8)
    ensures
        tribe_facing(0) == 0x200 && tribe_facing(1) == 0x600,
        tribe_facing(2) == 0x000 && tribe_facing(3) == 0x400,
        tribe_facing(1) - tribe_facing(0) == 0x400,
        tribe_facing(3) - tribe_facing(2) == 0x400,
        tribe_facing(t) < 0x800,
{
}

/// Turning a unit by an eighth of a circle (0x100 angle units) moves its
/// display direction back by one, round the eight directions.
pub proof fn lemma_sprite_direction_turn(camera_angle_z: i16, facing: u16)
    requires
        facing < 0xFF00,
    ensures
        sprite_direction(camera_angle_z, (facing + 0x100) as u16) == (sprite_direction(camera_angle_z, facing) + 7)
            % 8,
{
    let r = camera_rotation(camera_angle_z);
    assert(0 <= r < 2048);
    let x: i32 = (r - facing - 0x380) as i32;
    let y: i32 = (r - (facing + 0x100) - 0x380) as i32;
    assert(y == x - 256);
    let a: i32 = x & 0x700i32;
    let b: i32 = y & 0x700i32;
    assert(((b >> 8u32) == ((a >> 8u32) + 7) % 8) && 0 <= (a >> 8u32) < 8) by (bit_vector)
        requires
            y == x - 256,
            x > -100000,
            x < 100000,
            a == x & 0x700i32,
            b == y & 0x700i32,
    ;
}

} // verus!
