//! Integer pixel geometry: sizes, points and boxes measured in whole pixels.
use vstd::prelude::*;
use vstd::std_specs::convert::FromSpecImpl;
use vstd::std_specs::ops::{AddSpecImpl, DivSpecImpl, SubSpecImpl};
use vstd::string::StringExecFns;

verus! {

/// The size of something, in pixels.
#[derive(Debug, Default, Copy, Clone, PartialEq, Eq, Structural)]
pub struct PixelSize {
    pub width: u32,
    pub height: u32,
}

impl PixelSize {
    /// Constructor
    pub fn new(width: u32, height: u32) -> (r: Self)
        ensures
            r.width == width,
            r.height == height,
    {
        Self { width, height }
    }

    /// The number of pixels covered, `width * height`.
    pub open spec fn spec_area(&self) -> int {
        self.width * self.height
    }

    /// Calculate the area in pixels.
    pub fn area(&self) -> (r: u32)
        requires
            self.spec_area() <= u32::MAX,
        ensures
            r == self.spec_area(),
    {
        self.width * self.height
    }
}

/// An `(x, y)` coordinate, in pixels.
#[derive(Default, Debug, Copy, Clone, PartialEq, Eq, Structural)]
pub struct PixelPoint {
    pub x: u32,
    pub y: u32,
}

impl PixelPoint {
    /// Constructor
    pub fn new(x: u32, y: u32) -> (r: Self)
        ensures
            r.x == x,
            r.y == y,
    {
        Self { x, y }
    }
}

/// An Axis-Aligned Bounding Box, in pixels: a top-left corner and a bottom-right corner.
#[derive(Debug, Copy, Clone, PartialEq, Default, Structural)]
pub struct PixelAABB {
    pub pos: PixelPoint,
    pub bottom_right: PixelPoint,
}

impl PixelAABB {
    /// The bottom-right corner lies right of and below the top-left one.
    pub open spec fn is_ordered(&self) -> bool {
        &&& self.pos.x <= self.bottom_right.x
        &&& self.pos.y <= self.bottom_right.y
    }

    /// The horizontal extent.
    pub open spec fn spec_width(&self) -> int {
        self.bottom_right.x - self.pos.x
    }

    /// The vertical extent.
    pub open spec fn spec_height(&self) -> int {
        self.bottom_right.y - self.pos.y
    }

    /// The width in pixels.
    pub fn width(&self) -> (r: u32)
        requires
            self.pos.x <= self.bottom_right.x,
        ensures
            r == self.spec_width(),
    {
        self.bottom_right.x - self.pos.x
    }

    /// The height in pixels.
    pub fn height(&self) -> (r: u32)
        requires
            self.pos.y <= self.bottom_right.y,
        ensures
            r == self.spec_height(),
    {
        self.bottom_right.y - self.pos.y
    }

    /// The width and the height.
    pub fn size(&self) -> (r: PixelSize)
        requires
            self.is_ordered(),
        ensures
            r.width == self.spec_width(),
            r.height == self.spec_height(),
    {
        PixelSize { width: self.width(), height: self.height() }
    }

    /// The number of pixels covered.
    pub fn area(&self) -> (r: u32)
        requires
            self.is_ordered(),
            self.spec_width() * self.spec_height() <= u32::MAX,
        ensures
            r == self.spec_width() * self.spec_height(),
    {
        self.size().area()
    }
}

/// A whole number of physical device pixels.
#[derive(Clone, Copy, Default, Debug, Eq, PartialEq, Structural, Hash, Ord, PartialOrd)]
pub struct DevicePixels(pub i32);

/// Rust's `as u32` on an `i32`: the same bits read as unsigned.
pub open spec fn i32_bits_as_u32(x: i32) -> int {
    if x >= 0 { x as int } else { x + 0x1_0000_0000int }
}

/// Rust's integer division, which rounds toward zero.
pub open spec fn div_toward_zero(a: int, b: int) -> int
    recommends b != 0,
{
    if a >= 0 { a / b } else { -((-a) / b) }
}

impl DevicePixels {
    /// The number of bytes taken by this many pixels at `bytes_per_pixel` bytes each,
    /// with the pixel count read as an unsigned 32-bit number.
    pub fn to_bytes(&self, bytes_per_pixel: u8) -> (r: u32)
        requires
            i32_bits_as_u32(self.0) * bytes_per_pixel <= u32::MAX,
        ensures
            r == i32_bits_as_u32(self.0) * bytes_per_pixel,
    {
        let v: i32 = self.0;
        let n: u32 = #[verifier::truncate] (v as u32);
        assert(n == (if v >= 0 { v as int } else { v + 0x1_0000_0000int })) by (bit_vector)
            requires
                n == #[verifier::truncate] (v as u32),
        ;
        n * (bytes_per_pixel as u32)
    }
}


impl From<i32> for DevicePixels {
    fn from(device_pixels: i32) -> (r: Self) {
        DevicePixels(device_pixels)
    }
}

impl FromSpecImpl<i32> for DevicePixels {
    open spec fn obeys_from_spec() -> bool {
        true
    }

    open spec fn from_spec(v: i32) -> Self {
        DevicePixels(v)
    }
}

impl From<DevicePixels> for i32 {
    fn from(device_pixels: DevicePixels) -> (r: Self) {
        device_pixels.0
    }
}

impl FromSpecImpl<DevicePixels> for i32 {
    open spec fn obeys_from_spec() -> bool {
        true
    }

    open spec fn from_spec(v: DevicePixels) -> i32 {
        v.0
    }
}

impl From<DevicePixels> for u32 {
    /// The same bits, read as unsigned.
    fn from(device_pixels: DevicePixels) -> (r: Self) {
        let v: i32 = device_pixels.0;
        let n: u32 = #[verifier::truncate] (v as u32);
        assert(n == (if v >= 0 { v as int } else { v + 0x1_0000_0000int })) by (bit_vector)
            requires
                n == #[verifier::truncate] (v as u32),
        ;
        n
    }
}

impl FromSpecImpl<DevicePixels> for u32 {
    open spec fn obeys_from_spec() -> bool {
        true
    }

    open spec fn from_spec(v: DevicePixels) -> u32 {
        i32_bits_as_u32(v.0) as u32
    }
}

impl From<u32> for DevicePixels {
    /// The same bits, read as signed.
    fn from(device_pixels: u32) -> (r: Self) {
        let n: i32 = #[verifier::truncate] (device_pixels as i32);
        assert(n == (if device_pixels < 0x8000_0000 { device_pixels as int } else { device_pixels - 0x1_0000_0000int })) by (bit_vector)
            requires
                n == #[verifier::truncate] (device_pixels as i32),
        ;
        DevicePixels(n)
    }
}

impl FromSpecImpl<u32> for DevicePixels {
    open spec fn obeys_from_spec() -> bool {
        true
    }

    open spec fn from_spec(v: u32) -> Self {
        DevicePixels(
            (if v < 0x8000_0000 {
                v as int
            } else {
                v - 0x1_0000_0000int
            }) as i32,
        )
    }
}

impl From<DevicePixels> for u64 {
    /// The count, sign-extended and read as unsigned.
    fn from(device_pixels: DevicePixels) -> (r: Self) {
        let v: i32 = device_pixels.0;
        let n: u64 = #[verifier::truncate] (v as u64);
        assert(n == (if v >= 0 { v as int } else { v + 0x1_0000_0000_0000_0000int })) by (bit_vector)
            requires
                n == #[verifier::truncate] (v as u64),
        ;
        n
    }
}

impl FromSpecImpl<DevicePixels> for u64 {
    open spec fn obeys_from_spec() -> bool {
        true
    }

    open spec fn from_spec(v: DevicePixels) -> u64 {
        (if v.0 >= 0 {
            v.0 as int
        } else {
            v.0 + 0x1_0000_0000_0000_0000int
        }) as u64
    }
}

impl From<u64> for DevicePixels {
    /// The low 32 bits, read as signed.
    fn from(device_pixels: u64) -> (r: Self) {
        let n: i32 = #[verifier::truncate] (device_pixels as i32);
        assert(n == (if device_pixels % 0x1_0000_0000 < 0x8000_0000 {
            (device_pixels % 0x1_0000_0000) as int
        } else {
            device_pixels % 0x1_0000_0000 - 0x1_0000_0000int
        })) by (bit_vector)
            requires
                n == #[verifier::truncate] (device_pixels as i32),
        ;
        DevicePixels(n)
    }
}

impl FromSpecImpl<u64> for DevicePixels {
    open spec fn obeys_from_spec() -> bool {
        true
    }

    open spec fn from_spec(v: u64) -> Self {
        DevicePixels(
            (if v % 0x1_0000_0000 < 0x8000_0000 {
                (v % 0x1_0000_0000) as int
            } else {
                v % 0x1_0000_0000 - 0x1_0000_0000int
            }) as i32,
        )
    }
}

impl From<DevicePixels> for usize {
    /// The count, sign-extended to 64 bits, read as unsigned and cut to the
    /// width of `usize`.
    fn from(device_pixels: DevicePixels) -> (r: Self) {
        let wide: u64 = u64::from(device_pixels);
        #[verifier::truncate] (wide as usize)
    }
}

impl FromSpecImpl<DevicePixels> for usize {
    open spec fn obeys_from_spec() -> bool {
        true
    }

    open spec fn from_spec(v: DevicePixels) -> usize {
        ((if v.0 >= 0 {
            v.0 as int
        } else {
            v.0 + 0x1_0000_0000_0000_0000int
        }) as u64) as usize
    }
}

impl From<usize> for DevicePixels {
    /// The low 32 bits, read as signed.
    fn from(device_pixels: usize) -> (r: Self) {
        let w: u64 = device_pixels as u64;
        DevicePixels::from(w)
    }
}

impl FromSpecImpl<usize> for DevicePixels {
    open spec fn obeys_from_spec() -> bool {
        true
    }

    open spec fn from_spec(v: usize) -> Self {
        let w = v as u64;
        DevicePixels(
            (if w % 0x1_0000_0000 < 0x8000_0000 {
                (w % 0x1_0000_0000) as int
            } else {
                w % 0x1_0000_0000 - 0x1_0000_0000int
            }) as i32,
        )
    }
}

impl std::ops::Add for DevicePixels {
    type Output = DevicePixels;

    /// The sum of two pixel counts.
    fn add(self, rhs: DevicePixels) -> (r: DevicePixels) {
        DevicePixels(self.0 + rhs.0)
    }
}

impl AddSpecImpl for DevicePixels {
    open spec fn obeys_add_spec() -> bool {
        true
    }

    open spec fn add_req(self, rhs: DevicePixels) -> bool {
        i32::MIN <= self.0 + rhs.0 <= i32::MAX
    }

    open spec fn add_spec(self, rhs: DevicePixels) -> DevicePixels {
        DevicePixels((self.0 + rhs.0) as i32)
    }
}

impl std::ops::Sub for DevicePixels {
    type Output = DevicePixels;

    /// The difference of two pixel counts.
    fn sub(self, rhs: DevicePixels) -> (r: DevicePixels) {
        DevicePixels(self.0 - rhs.0)
    }
}

impl SubSpecImpl for DevicePixels {
    open spec fn obeys_sub_spec() -> bool {
        true
    }

    open spec fn sub_req(self, rhs: DevicePixels) -> bool {
        i32::MIN <= self.0 - rhs.0 <= i32::MAX
    }

    open spec fn sub_spec(self, rhs: DevicePixels) -> DevicePixels {
        DevicePixels((self.0 - rhs.0) as i32)
    }
}

impl std::ops::Div<i32> for DevicePixels {
    type Output = DevicePixels;

    /// The pixel count divided by `rhs`, rounded toward zero.
    fn div(self, rhs: i32) -> (r: DevicePixels) {
        DevicePixels(self.0 / rhs)
    }
}

impl DivSpecImpl<i32> for DevicePixels {
    open spec fn obeys_div_spec() -> bool {
        true
    }

    open spec fn div_req(self, rhs: i32) -> bool {
        rhs != 0 && !(self.0 == i32::MIN && rhs == -1)
    }

    open spec fn div_spec(self, rhs: i32) -> DevicePixels {
        DevicePixels(div_toward_zero(self.0 as int, rhs as int) as i32)
    }
}

/// The character of the decimal digit `d`.
pub open spec fn digit_char(d: nat) -> char {
    (d + 48) as char
}

/// The decimal digits of `n`, most significant first.
pub open spec fn digits(n: nat) -> Seq<char>
    decreases n,
{
    if n < 10 {
        seq![digit_char(n)]
    } else {
        digits(n / 10).push(digit_char(n % 10))
    }
}

/// `x` written in decimal, with a leading `-` when negative.
pub open spec fn decimal(x: int) -> Seq<char> {
    if x < 0 {
        seq!['-'] + digits((-x) as nat)
    } else {
        digits(x as nat)
    }
}

/// The number that the decimal digits `s` stand for.
pub open spec fn digits_value(s: Seq<char>) -> int
    decreases s.len(),
{
    if s.len() == 0 {
        0
    } else {
        digits_value(s.drop_last()) * 10 + (s.last() as int - 48)
    }
}

/// A number's decimal text reads back as that number: after an optional
/// `-` for a negative number, it is made of digits `0` to `9`, at least one,
/// with no leading zero unless the number is 0, and they stand for the
/// number's magnitude.
pub proof fn lemma_decimal_reads_back(x: int)
    ensures
        x < 0 <==> (decimal(x).len() > 0 && decimal(x)[0] == '-'),
        ({
            let ds = if x < 0 { decimal(x).drop_first() } else { decimal(x) };
            &&& ds.len() >= 1
            &&& forall|i: int| 0 <= i < ds.len() ==> '0' <= #[trigger] ds[i] <= '9'
            &&& (ds[0] == '0' ==> x == 0)
            &&& digits_value(ds) == if x < 0 { -x } else { x }
        }),
{
    let n: nat = if x < 0 { (-x) as nat } else { x as nat };
    lemma_digits_read_back(n);
    if x < 0 {
        assert(decimal(x).drop_first() =~= digits(n));
    }
}

proof fn lemma_digits_read_back(n: nat)
    ensures
        digits(n).len() >= 1,
        forall|i: int| 0 <= i < digits(n).len() ==> '0' <= #[trigger] digits(n)[i] <= '9',
        digits(n)[0] == '0' ==> n == 0,
        digits_value(digits(n)) == n,
    decreases n,
{
    if n >= 10 {
        lemma_digits_read_back(n / 10);
        let d = digits(n);
        assert(d.drop_last() =~= digits(n / 10));
        assert(d.last() as int == n % 10 + 48);
        assert(d[0] == digits(n / 10)[0]);
        assert((n / 10) * 10 + n % 10 == n);
    } else {
        assert(digits(n)[0] as int == n + 48);
        assert(digits(n).drop_last() =~= Seq::<char>::empty());
        assert(digits_value(Seq::<char>::empty()) == 0);
    }
}

/// The one-character text of the decimal digit `d`.
fn digit_str(d: u64) -> (r: &'static str)
    requires
        d < 10,
    ensures
        r@ == seq![digit_char(d as nat)],
{
    proof {
        reveal_strlit("0");
        reveal_strlit("1");
        reveal_strlit("2");
        reveal_strlit("3");
        reveal_strlit("4");
        reveal_strlit("5");
        reveal_strlit("6");
        reveal_strlit("7");
        reveal_strlit("8");
        reveal_strlit("9");
    }
    match d {
        0 => "0",
        1 => "1",
        2 => "2",
        3 => "3",
        4 => "4",
        5 => "5",
        6 => "6",
        7 => "7",
        8 => "8",
        _ => "9",
    }
}

/// Appends the decimal digits of `n` to `s`.
fn append_digits(s: &mut String, n: u64)
    ensures
        final(s)@ == old(s)@ + digits(n as nat),
    decreases n,
{
    if n < 10 {
        s.append(digit_str(n));
    } else {
        append_digits(s, n / 10);
        s.append(digit_str(n % 10));
        proof {
            assert((n / 10) as nat == (n as nat) / 10);
            assert((n % 10) as nat == (n as nat) % 10);
            assert(final(s)@ =~= old(s)@ + digits(n as nat));
        }
    }
}

/// `x` written in decimal, as `i32::to_string` writes it.
fn i32_text(x: i32) -> (r: String)
    ensures
        r@ == decimal(x as int),
{
    let mut s = String::new();
    if x < 0 {
        proof {
            reveal_strlit("-");
        }
        s.append("-");
        let m: u64 = (0i64 - (x as i64)) as u64;
        append_digits(&mut s, m);
        proof {
            assert(s@ =~= seq!['-'] + digits((-x) as nat));
        }
    } else {
        append_digits(&mut s, x as u64);
        proof {
            assert(s@ =~= digits(x as nat));
        }
    }
    s
}

impl DevicePixels {
    /// The count followed by ` px (device)`, as the type's debug text reads.
    pub fn debug_text(&self) -> (r: String)
        ensures
            r@ == decimal(self.0 as int) + " px (device)"@,
    {
        i32_text(self.0).concat(" px (device)")
    }
}

/// Values that can be halved.
pub trait Half: Sized {
    fn half(&self) -> Self;
}

impl Half for DevicePixels {
    fn half(&self) -> (r: Self)
        ensures
            r.0 == div_toward_zero(self.0 as int, 2),
    {
        DevicePixels(self.0 / 2)
    }
}

/// Values that can tell whether they are zero.
pub trait IsZero {
    fn is_zero(&self) -> bool;
}

impl IsZero for DevicePixels {
    fn is_zero(&self) -> (r: bool)
        ensures
            r == (self.0 == 0),
    {
        self.0 == 0
    }
}

} // verus!
