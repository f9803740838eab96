use vstd::prelude::*;

verus! {

/// The most bytes a console line may hold before it overflows.
pub const LINE_CAPACITY: usize = 32;

/// What one arriving byte did to the line being read.
#[derive(Clone, Copy, PartialEq, Eq, Structural, Debug)]
pub enum LineStep {
    /// The byte ended the line; the buffer holds the finished line.
    Complete,
    /// The byte was appended to the line.
    Accepted,
    /// The line was already full; the byte was dropped.
    Overflow,
}

pub open spec fn is_line_end(b: u8) -> bool {
    b == 13 || b == 10
}

/// One step of the line reader: decides what an arriving byte does to the
/// line collected so far.  A carriage return or line feed completes the line
/// unchanged; any other byte is appended while the line is short enough, and
/// overflows a full line, which stays unchanged.
pub fn line_push(buf: &mut Vec<u8>, b: u8) -> (r: LineStep)
    requires
        old(buf)@.len() <= LINE_CAPACITY,
    ensures
        is_line_end(b) ==> r == LineStep::Complete && final(buf)@ == old(buf)@,
        !is_line_end(b) && old(buf)@.len() < LINE_CAPACITY ==> r == LineStep::Accepted
            && final(buf)@ == old(buf)@.push(b),
        !is_line_end(b) && old(buf)@.len() == LINE_CAPACITY ==> r == LineStep::Overflow
            && final(buf)@ == old(buf)@,
{
    if b == 13 || b == 10 {
        LineStep::Complete
    } else if buf.len() < LINE_CAPACITY {
        buf.push(b);
        LineStep::Accepted
    } else {
        LineStep::Overflow
    }
}

/// A command the sensor console understands.
#[derive(Clone, Copy, PartialEq, Eq, Structural, Debug)]
pub enum Command {
    Accelerometer,
    Magnetometer,
}

/// The bytes of the word "accelerometer".
pub open spec fn accel_word() -> Seq<u8> {
    seq![97u8, 99, 99, 101, 108, 101, 114, 111, 109, 101, 116, 101, 114]
}

/// The bytes of the word "magnetometer".
pub open spec fn mag_word() -> Seq<u8> {
    seq![109u8, 97, 103, 110, 101, 116, 111, 109, 101, 116, 101, 114]
}

fn matches_word<const N: usize>(line: &Vec<u8>, word: &[u8; N]) -> (r: bool)
    ensures
        r == (line@ == word@),
{
    if line.len() != N {
        return false;
    }
    let mut i: usize = 0;
    while i < N
        invariant
            i <= N,
            line@.len() == N,
            forall|k: int| 0 <= k < i ==> line@[k] == word@[k],
        decreases N - i,
    {
        if line[i] != word[i] {
            return false;
        }
        i += 1;
    }
    proof {
        assert(line@ =~= word@);
    }
    true
}

/// Reads a finished console line as a command: exactly the line
/// "accelerometer" or "magnetometer", anything else being unknown.
pub fn parse_command(line: &Vec<u8>) -> (r: Option<Command>)
    ensures
        r == Some(Command::Accelerometer) <==> line@ == accel_word(),
        r == Some(Command::Magnetometer) <==> line@ == mag_word(),
        r is None <==> line@ != accel_word() && line@ != mag_word(),
{
    let accel: [u8; 13] = [97u8, 99, 99, 101, 108, 101, 114, 111, 109, 101, 116, 101, 114];
    let mag: [u8; 12] = [109u8, 97, 103, 110, 101, 116, 111, 109, 101, 116, 101, 114];
    proof {
        assert(accel@ =~= accel_word());
        assert(mag@ =~= mag_word());
    }
    if matches_word(line, &accel) {
        Some(Command::Accelerometer)
    } else if matches_word(line, &mag) {
        Some(Command::Magnetometer)
    } else {
        None
    }
}

/// The bytes of a line in reverse order, as the console echoes them back.
pub fn reversed(v: &Vec<u8>) -> (r: Vec<u8>)
    ensures
        r@ == v@.reverse(),
{
    let mut r: Vec<u8> = Vec::new();
    let mut i: usize = v.len();
    while i > 0
        invariant
            i <= v@.len(),
            r@.len() == v@.len() - i,
            forall|k: int| 0 <= k < r@.len() ==> #[trigger] r@[k] == v@[v@.len() - 1 - k],
        decreases i,
    {
        i = i - 1;
        r.push(v[i]);
    }
    proof {
        assert(r@ =~= v@.reverse());
    }
    r
}

} // verus!
