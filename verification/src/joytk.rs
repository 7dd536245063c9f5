//! The command line of the controller toolkit: its subcommands, and the
//! checks of its arguments (MAC addresses and `RRGGBB` colors).
use crate::input::{InputReport, Stick};
use crate::spi::Color;
use crate::common::IdEnum;
use vstd::prelude::*;
use vstd::string::*;

verus! {

/// What the toolkit does.
#[derive(Debug, Clone)]
pub enum SubCommand {
    Calibrate(Calibrate),
    Get,
    SetConfig(SetConfig),
    Monitor,
    PulseRate,
    Dump,
    Restore,
    Decode,
    Relay(Relay),
    Ringcon(Ringcon),
    Camera,
}

#[derive(Debug, Clone)]
pub struct Calibrate {
    pub subcmd: CalibrateE,
}

#[derive(Debug, Copy, Clone, PartialEq, Eq, Structural)]
pub enum CalibrateE {
    Sticks,
    Gyroscope,
    Reset,
}

#[derive(Debug, Clone)]
pub struct SetConfig {
    pub subcmd: SetE,
}

#[derive(Debug, Clone)]
pub enum SetE {
    Color(SetColor),
}

/// The colors to set, each `RRGGBB`.
#[derive(Debug, Clone)]
pub struct SetColor {
    pub body: String,
    pub buttons: String,
    pub left_grip: Option<String>,
    pub right_grip: Option<String>,
}

#[derive(Debug, Clone)]
pub struct Ringcon {
    pub subcmd: RingconE,
}

#[derive(Debug, Copy, Clone, PartialEq, Eq, Structural)]
pub enum RingconE {
    StoredFlex,
    Monitor,
    Exp,
}

/// The relay between a controller and a console.
#[derive(Debug, Clone)]
pub struct Relay {
    /// The MAC address of the console.
    pub address: String,
    /// Where to write the log.
    pub output: Option<String>,
    pub verbose: bool,
}

/// Why a byte string is not a hexadecimal number of one byte.
#[derive(Debug, Copy, Clone, PartialEq, Eq, Structural)]
pub enum HexError {
    Empty,
    InvalidDigit,
    PosOverflow,
}

/// The value of a hexadecimal digit.
pub open spec fn hex_digit(b: u8) -> Option<nat> {
    if 0x30 <= b <= 0x39 {
        Some((b - 0x30) as nat)
    } else if 0x61 <= b <= 0x66 {
        Some((b - 0x61 + 10) as nat)
    } else if 0x41 <= b <= 0x46 {
        Some((b - 0x41 + 10) as nat)
    } else {
        None
    }
}

/// The number whose hexadecimal digits from `i` follow the value `acc`:
/// the first digit that is not one is an error, and so is a value past 255.
pub open spec fn hex_from(d: Seq<u8>, i: int, acc: nat) -> Result<u8, HexError>
    decreases d.len() - i,
{
    if i < 0 || i >= d.len() {
        Ok(acc as u8)
    } else {
        match hex_digit(d[i]) {
            None => Err(HexError::InvalidDigit),
            Some(x) => if acc * 16 + x > 255 {
                Err(HexError::PosOverflow)
            } else {
                hex_from(d, i + 1, acc * 16 + x)
            },
        }
    }
}

/// A byte written in hexadecimal, after an optional `+`, as `u8`'s parse
/// in base 16 reads it.
pub open spec fn hex_u8(s: Seq<u8>) -> Result<u8, HexError> {
    if s.len() == 0 {
        Err(HexError::Empty)
    } else if s[0] == 0x2b {
        if s.len() == 1 {
            Err(HexError::InvalidDigit)
        } else {
            hex_from(s, 1, 0)
        }
    } else {
        hex_from(s, 0, 0)
    }
}

/// Reads a byte written in hexadecimal.
pub fn parse_hex_u8(s: &[u8]) -> (r: Result<u8, HexError>)
    ensures
        r == hex_u8(s@),
{
    if s.len() == 0 {
        return Err(HexError::Empty);
    }
    let mut i: usize = 0;
    if s[0] == 0x2b {
        if s.len() == 1 {
            return Err(HexError::InvalidDigit);
        }
        i = 1;
    }
    let ghost start = i as int;
    let mut acc: u8 = 0;
    while i < s.len()
        invariant
            start <= i <= s@.len(),
            hex_u8(s@) == hex_from(s@, i as int, acc as nat),
        decreases s@.len() - i,
    {
        let b = s[i];
        let x: u8 = if 0x30 <= b && b <= 0x39 {
            b - 0x30
        } else if 0x61 <= b && b <= 0x66 {
            b - 0x61 + 10
        } else if 0x41 <= b && b <= 0x46 {
            b - 0x41 + 10
        } else {
            return Err(HexError::InvalidDigit);
        };
        if acc > 15 || acc * 16 > 255 - x {
            return Err(HexError::PosOverflow);
        }
        acc = acc * 16 + x;
        i += 1;
    }
    Ok(acc)
}

/// The parts of `s` between the colons, in order.
pub open spec fn colon_parts(s: Seq<u8>) -> Seq<Seq<u8>>
    decreases s.len(),
{
    if s.len() == 0 {
        seq![Seq::empty()]
    } else {
        let init = colon_parts(s.drop_last());
        if s.last() == 0x3a {
            init.push(Seq::empty())
        } else {
            init.update(init.len() - 1, init.last().push(s.last()))
        }
    }
}

proof fn lemma_colon_parts_nonempty(s: Seq<u8>)
    ensures
        colon_parts(s).len() >= 1,
    decreases s.len(),
{
    if s.len() > 0 {
        lemma_colon_parts_nonempty(s.drop_last());
    }
}

/// Why an argument is not a MAC address.
#[derive(Debug, Copy, Clone, PartialEq, Eq, Structural)]
pub enum MacError {
    /// A part is not a hexadecimal byte.
    Parse(HexError),
    /// There are not six parts.
    Invalid,
}

/// The check of the parts from `i`: the first that is not a hexadecimal
/// byte is the error; else there must be six.
pub open spec fn mac_from(parts: Seq<Seq<u8>>, i: int) -> Result<(), MacError>
    decreases parts.len() - i,
{
    if i < 0 || i >= parts.len() {
        if parts.len() == 6 {
            Ok(())
        } else {
            Err(MacError::Invalid)
        }
    } else {
        match hex_u8(parts[i]) {
            Err(e) => Err(MacError::Parse(e)),
            Ok(_) => mac_from(parts, i + 1),
        }
    }
}

proof fn lemma_mac_skip(parts: Seq<Seq<u8>>, j: int, n: int)
    requires
        0 <= j <= n <= parts.len(),
        forall|k: int| 0 <= k < n ==> #[trigger] hex_u8(parts[k]) is Ok,
    ensures
        mac_from(parts, j) == mac_from(parts, n),
    decreases n - j,
{
    if j < n {
        lemma_mac_skip(parts, j + 1, n);
    }
}

/// The bytes of `s` from `start` to `end`.
fn copy_range(s: &[u8], start: usize, end: usize) -> (r: Vec<u8>)
    requires
        start <= end <= s@.len(),
    ensures
        r@ == s@.subrange(start as int, end as int),
{
    let mut r: Vec<u8> = Vec::new();
    let mut k = start;
    while k < end
        invariant
            start <= k <= end <= s@.len(),
            r@ == s@.subrange(start as int, k as int),
        decreases end - k,
    {
        r.push(s[k]);
        k += 1;
        assert(r@ =~= s@.subrange(start as int, k as int));
    }
    r
}

/// Whether `input` is a MAC address: six hexadecimal bytes separated by
/// colons.
pub fn is_mac(input: &str) -> (r: Result<(), MacError>)
    ensures
        r == mac_from(colon_parts(input.spec_bytes()), 0),
{
    let bytes = input.as_bytes();
    let ghost s = bytes@;
    let mut count: usize = 0;
    let mut start: usize = 0;
    let mut i: usize = 0;
    let ghost mut done: Seq<Seq<u8>> = Seq::empty();
    assert(s.subrange(0, 0) =~= Seq::<u8>::empty());
    assert(colon_parts(Seq::<u8>::empty()) =~= seq![Seq::<u8>::empty()]);
    assert(done.push(s.subrange(0, 0)) =~= seq![Seq::<u8>::empty()]);
    while i < bytes.len()
        invariant
            s == bytes@,
            s == input.spec_bytes(),
            start <= i <= s.len(),
            count == done.len(),
            count <= i,
            colon_parts(s.subrange(0, i as int)) == done.push(s.subrange(start as int, i as int)),
            forall|k: int| 0 <= k < done.len() ==> #[trigger] hex_u8(done[k]) is Ok,
        decreases s.len() - i,
    {
        proof {
            assert(s.subrange(0, i + 1).drop_last() =~= s.subrange(0, i as int));
            assert(s.subrange(0, i + 1).last() == s[i as int]);
        }
        if bytes[i] == 0x3a {
            let part = copy_range(bytes, start, i);
            match parse_hex_u8(part.as_slice()) {
                Err(e) => {
                    proof {
                        let parts = colon_parts(s);
                        let a = colon_parts(s.subrange(0, i + 1));
                        assert(a == done.push(part@).push(Seq::<u8>::empty()));
                        lemma_colon_parts_prefix(s, i + 1, s.len() as int);
                        assert(s.subrange(0, s.len() as int) =~= s);
                        assert(parts[done.len() as int] == a[done.len() as int]);
                        assert(forall|k: int| 0 <= k < done.len() ==> #[trigger] parts[k] == a[k]);
                        assert(forall|k: int| 0 <= k < done.len() ==> a[k] == done[k]);
                        lemma_mac_skip(parts, 0, done.len() as int);
                    }
                    return Err(MacError::Parse(e));
                },
                Ok(_) => {},
            }
            proof {
                assert(s.subrange(i + 1, i + 1) =~= Seq::<u8>::empty());
                done = done.push(s.subrange(start as int, i as int));
            }
            count += 1;
            start = i + 1;
        } else {
            proof {
                assert(s.subrange(start as int, i + 1) =~= s.subrange(start as int, i as int).push(s[i as int]));
                assert(done.push(s.subrange(start as int, i as int)).update(
                    done.len() as int,
                    s.subrange(start as int, i + 1),
                ) =~= done.push(s.subrange(start as int, i + 1)));
            }
        }
        i += 1;
    }
    assert(s.subrange(0, s.len() as int) =~= s);
    let part = copy_range(bytes, start, bytes.len());
    let parts = Ghost(colon_parts(s));
    assert(parts@ == done.push(part@));
    proof {
        lemma_mac_skip(parts@, 0, done.len() as int);
    }
    match parse_hex_u8(part.as_slice()) {
        Err(e) => {
            return Err(MacError::Parse(e));
        },
        Ok(_) => {},
    }
    proof {
        lemma_mac_skip(parts@, done.len() as int, done.len() as int + 1);
    }
    if count == 5 {
        Ok(())
    } else {
        Err(MacError::Invalid)
    }
}

/// The parts of a prefix are, but maybe the last, the first parts of any
/// longer prefix.
proof fn lemma_colon_parts_prefix(s: Seq<u8>, n: int, m: int)
    requires
        0 <= n <= m <= s.len(),
    ensures
        colon_parts(s.subrange(0, n)).len() <= colon_parts(s.subrange(0, m)).len(),
        forall|k: int|
            0 <= k < colon_parts(s.subrange(0, n)).len() - 1 ==> #[trigger] colon_parts(s.subrange(0, m))[k]
                == colon_parts(s.subrange(0, n))[k],
    decreases m - n,
{
    if m > n {
        lemma_colon_parts_prefix(s, n, m - 1);
        assert(s.subrange(0, m).drop_last() =~= s.subrange(0, m - 1));
        lemma_colon_parts_nonempty(s.subrange(0, m - 1));
    }
}

/// The color in six hexadecimal digits `RRGGBB`.
pub fn parse_color(s: &str) -> (r: Result<Color, HexError>)
    requires
        s.spec_bytes().len() == 6,
        vstd::utf8::is_char_boundary(s.spec_bytes(), 2),
        vstd::utf8::is_char_boundary(s.spec_bytes(), 4),
    ensures
        ({
            let b = s.spec_bytes();
            match (hex_u8(b.subrange(0, 2)), hex_u8(b.subrange(2, 4)), hex_u8(b.subrange(4, 6))) {
                (Ok(red), Ok(green), Ok(blue)) => r == Ok::<Color, HexError>(Color(red, green, blue)),
                (Err(e), _, _) => r == Err::<Color, HexError>(e),
                (Ok(_), Err(e), _) => r == Err::<Color, HexError>(e),
                (Ok(_), Ok(_), Err(e)) => r == Err::<Color, HexError>(e),
            }
        }),
{
    let b = s.as_bytes();
    let red = parse_hex_u8(&[b[0], b[1]]);
    assert([b[0], b[1]]@ =~= b@.subrange(0, 2));
    let red = match red {
        Ok(v) => v,
        Err(e) => {
            return Err(e);
        },
    };
    let green = parse_hex_u8(&[b[2], b[3]]);
    assert([b[2], b[3]]@ =~= b@.subrange(2, 4));
    let green = match green {
        Ok(v) => v,
        Err(e) => {
            return Err(e);
        },
    };
    let blue = parse_hex_u8(&[b[4], b[5]]);
    assert([b[4], b[5]]@ =~= b@.subrange(4, 6));
    let blue = match blue {
        Ok(v) => v,
        Err(e) => {
            return Err(e);
        },
    };
    Ok(Color(red, green, blue))
}

/// The raw positions of the sticks in a standard report.
pub fn raw_sticks(report: &InputReport) -> (r: (Stick, Stick))
    requires
        crate::input::is_standard_id(report.spec_id()),
    ensures
        r.0 == crate::input::StandardInputReport::parse(report.raw@).left_stick,
        r.1 == crate::input::StandardInputReport::parse(report.raw@).right_stick,
{
    let std_report = report.standard().unwrap();
    (std_report.left_stick, std_report.right_stick)
}


/// The extents of the raw positions of both sticks seen so far.
#[derive(Debug, Copy, Clone, PartialEq, Eq, Structural)]
pub struct SticksRange {
    pub l_x_min: u16,
    pub l_x_max: u16,
    pub l_y_min: u16,
    pub l_y_max: u16,
    pub r_x_min: u16,
    pub r_x_max: u16,
    pub r_y_min: u16,
    pub r_y_max: u16,
}

/// The smaller of two values.
pub open spec fn min16(a: u16, b: u16) -> u16 {
    if a <= b {
        a
    } else {
        b
    }
}

/// The larger of two values.
pub open spec fn max16(a: u16, b: u16) -> u16 {
    if a >= b {
        a
    } else {
        b
    }
}

impl SticksRange {
    /// Each extent holds its minimum below its maximum.
    pub open spec fn wf(self) -> bool {
        self.l_x_min <= self.l_x_max && self.l_y_min <= self.l_y_max && self.r_x_min <= self.r_x_max
            && self.r_y_min <= self.r_y_max
    }

    /// Whether the positions lie within the extents.
    pub open spec fn contains(self, left: Stick, right: Stick) -> bool {
        &&& self.l_x_min <= left.spec_x() <= self.l_x_max
        &&& self.l_y_min <= left.spec_y() <= self.l_y_max
        &&& self.r_x_min <= right.spec_x() <= self.r_x_max
        &&& self.r_y_min <= right.spec_y() <= self.r_y_max
    }

    /// The extents of the neutral positions alone.
    pub fn new(left: Stick, right: Stick) -> (r: SticksRange)
        ensures
            r.wf(),
            r.contains(left, right),
            r.l_x_min == left.spec_x() && r.l_x_max == left.spec_x(),
            r.l_y_min == left.spec_y() && r.l_y_max == left.spec_y(),
            r.r_x_min == right.spec_x() && r.r_x_max == right.spec_x(),
            r.r_y_min == right.spec_y() && r.r_y_max == right.spec_y(),
    {
        SticksRange {
            l_x_min: left.x(),
            l_x_max: left.x(),
            l_y_min: left.y(),
            l_y_max: left.y(),
            r_x_min: right.x(),
            r_x_max: right.x(),
            r_y_min: right.y(),
            r_y_max: right.y(),
        }
    }

    /// Widens the extents to the new positions.
    pub fn update(&mut self, left: Stick, right: Stick)
        requires
            old(self).wf(),
        ensures
            final(self).wf(),
            final(self).contains(left, right),
            forall|l: Stick, r: Stick| old(self).contains(l, r) ==> final(self).contains(l, r),
            final(self).l_x_min == min16(old(self).l_x_min, left.spec_x()),
            final(self).l_x_max == max16(old(self).l_x_max, left.spec_x()),
            final(self).l_y_min == min16(old(self).l_y_min, left.spec_y()),
            final(self).l_y_max == max16(old(self).l_y_max, left.spec_y()),
            final(self).r_x_min == min16(old(self).r_x_min, right.spec_x()),
            final(self).r_x_max == max16(old(self).r_x_max, right.spec_x()),
            final(self).r_y_min == min16(old(self).r_y_min, right.spec_y()),
            final(self).r_y_max == max16(old(self).r_y_max, right.spec_y()),
    {
        let (lx, ly, rx, ry) = (left.x(), left.y(), right.x(), right.y());
        if lx < self.l_x_min {
            self.l_x_min = lx;
        }
        if lx > self.l_x_max {
            self.l_x_max = lx;
        }
        if ly < self.l_y_min {
            self.l_y_min = ly;
        }
        if ly > self.l_y_max {
            self.l_y_max = ly;
        }
        if rx < self.r_x_min {
            self.r_x_min = rx;
        }
        if rx > self.r_x_max {
            self.r_x_max = rx;
        }
        if ry < self.r_y_min {
            self.r_y_min = ry;
        }
        if ry > self.r_y_max {
            self.r_y_max = ry;
        }
    }
}

/// The steps writing new colors: for grip colors, which only a Pro
/// Controller has, the setting that the grips are colored first when it is
/// not so already.
pub fn set_color_steps(dev_info: &crate::input::DeviceInfo, colors: crate::spi::ControllerColor, with_grips: bool) -> (r: Vec<
    crate::hid::Step,
>)
    requires
        with_grips ==> dev_info.which_controller.spec_try_into() == Some(crate::input::WhichController::ProController),
    ensures
        ({
            let use_grip = crate::hid::Step::Subcmd(
                crate::output::SubcommandRequest::of(
                    crate::common::SubcommandId::SPIWrite,
                    crate::spi::u32_le_bytes(0x601B).push(1) + seq![
                        crate::input::UseSPIColors::IncludingGrip.spec_to_u8(),
                    ] + crate::bytes::zeros(28),
                ),
            );
            let write = crate::hid::Step::Subcmd(
                crate::output::SubcommandRequest::of(
                    crate::common::SubcommandId::SPIWrite,
                    crate::spi::u32_le_bytes(0x6050).push(12) + colors.spec_bytes() + crate::bytes::zeros(17),
                ),
            );
            if with_grips && dev_info.use_spi_colors.spec_try_into() != Some(crate::input::UseSPIColors::IncludingGrip) {
                r@ == seq![use_grip, write]
            } else {
                r@ == seq![write]
            }
        }),
{
    let mut r: Vec<crate::hid::Step> = Vec::new();
    if with_grips && !dev_info.use_spi_colors.is(crate::input::UseSPIColors::IncludingGrip) {
        let req = crate::input::UseSPIColors::IncludingGrip.write_request();
        r.push(crate::hid::Step::Subcmd(crate::output::SubcommandRequest::from(req)));
    }
    let req = colors.write_request();
    r.push(crate::hid::Step::Subcmd(crate::output::SubcommandRequest::from(req)));
    r
}
} // verus!
