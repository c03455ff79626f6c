//! DSKY registers: their whole-number contents, and the encoding of a signed
//! integer as a row of five decimal digit positions with sign lamps,
//! right-justified with blank leading positions.
use vstd::prelude::*;

verus! {

/// Code of a blank digit position.
pub const DIGIT_BLANK: u8 = 0xFF;

/// One five-digit DSKY register row.
#[derive(Clone, Copy, Debug, PartialEq, Eq)]
pub struct DigitRow {
    /// Digit positions, most significant first: 0-9, or [`DIGIT_BLANK`].
    pub digits: [u8; 5],
    /// The + sign lamp.
    pub sign_plus: bool,
    /// The - sign lamp.
    pub sign_minus: bool,
}

/// A three-register display: the noun shown and rows R1, R2 and R3.
#[derive(Clone, Copy, Debug, PartialEq, Eq)]
pub struct RegisterDisplay {
    /// NOUN display.
    pub noun: u8,
    /// R1, R2, R3.
    pub rows: [DigitRow; 3],
}

/// Whole-number contents of the registers R1, R2 and R3, as the programs
/// write them for counts, cleared displays and times.
#[derive(Clone, Copy, Debug, PartialEq, Eq, Structural)]
pub struct Registers {
    /// R1.
    pub r1: i32,
    /// R2.
    pub r2: i32,
    /// R3.
    pub r3: i32,
}

/// All three registers zero.
pub open spec fn cleared_registers() -> Registers {
    Registers { r1: 0, r2: 0, r3: 0 }
}

/// Ten to the power `j`, for the five register positions and one beyond.
pub open spec fn pow10(j: int) -> int {
    if j <= 0 {
        1
    } else if j == 1 {
        10
    } else if j == 2 {
        100
    } else if j == 3 {
        1000
    } else if j == 4 {
        10000
    } else {
        100000
    }
}

/// Magnitude of `value`.
pub open spec fn magnitude(value: i32) -> nat {
    if value < 0 { (-value) as nat } else { value as nat }
}

/// Number of register positions `a` occupies: its count of decimal digits,
/// at most five (larger values show their last five digits).
pub open spec fn shown_digit_count(a: nat) -> int {
    if a < 10 {
        1
    } else if a < 100 {
        2
    } else if a < 1000 {
        3
    } else if a < 10000 {
        4
    } else {
        5
    }
}

/// `row` shows `value`: the last `shown_digit_count` decimal digits of its
/// magnitude right-justified (position 4 holds the units), blanks before
/// them, and the sign lamp of its sign (zero shows +).
pub open spec fn shows_signed(row: DigitRow, value: i32) -> bool {
    let a = magnitude(value);
    let c = shown_digit_count(a);
    &&& forall|i: int| 5 - c <= i < 5 ==> #[trigger] row.digits[i] == (a / pow10(4 - i) as nat) % 10
    &&& forall|i: int| 0 <= i < 5 - c ==> #[trigger] row.digits[i] == DIGIT_BLANK
    &&& row.sign_plus == (value >= 0)
    &&& row.sign_minus == (value < 0)
}

/// Dividing by ten once more moves to the next decimal position.
proof fn lemma_next_position(a: nat, j: int)
    requires
        0 <= j < 5,
    ensures
        (a / pow10(j) as nat) / 10 == a / pow10(j + 1) as nat,
        a / pow10(j + 1) as nat == 0 <==> a < pow10(j + 1),
{
    vstd::arithmetic::div_mod::lemma_div_denominator(a as int, pow10(j), 10);
    assert(pow10(j) * 10 == pow10(j + 1));
    if a < pow10(j + 1) {
        vstd::arithmetic::div_mod::lemma_basic_div(a as int, pow10(j + 1));
    } else {
        vstd::arithmetic::div_mod::lemma_div_non_zero(a as int, pow10(j + 1));
    }
}

/// Encode `value` for a DSKY register row.
pub fn signed_register_row(value: i32) -> (row: DigitRow)
    ensures
        shows_signed(row, value),
{
    let abs_val: u32 = if value < 0 { (0i64 - value as i64) as u32 } else { value as u32 };
    let ghost a: nat = abs_val as nat;
    assert(a == magnitude(value));
    assert(a / 1 == a) by {
        vstd::arithmetic::div_mod::lemma_div_basics(a as int);
    }
    let mut digits: [u8; 5] = [DIGIT_BLANK; 5];
    let mut n: u32 = abs_val;
    let mut count: usize = 0;
    let mut done: bool = false;
    while !done
        invariant
            count <= 5,
            done ==> 1 <= count && count == shown_digit_count(a),
            !done ==> count < 5 && n == a / pow10(count as int) as nat && (count == 0 || a >= pow10(count as int)),
            forall|k: int| 5 - count <= k < 5 ==> #[trigger] digits[k] == (a / pow10(4 - k) as nat) % 10,
            forall|i: int| 0 <= i < 5 - count ==> #[trigger] digits[i] == DIGIT_BLANK,
        decreases 5 - count,
    {
        proof {
            lemma_next_position(a, count as int);
        }
        digits[4 - count] = (n % 10) as u8;
        n = n / 10;
        count = count + 1;
        if n == 0 || count == 5 {
            done = true;
        }
    }
    let first: usize = 5 - count;
    let mut i: usize = 0;
    while i < first
        invariant
            first == 5 - count,
            1 <= count <= 5,
            i <= first,
            forall|k: int| 5 - count <= k < 5 ==> #[trigger] digits[k] == (a / pow10(4 - k) as nat) % 10,
            forall|k: int| 0 <= k < 5 - count ==> #[trigger] digits[k] == DIGIT_BLANK,
        decreases first - i,
    {
        digits[i] = DIGIT_BLANK;
        i = i + 1;
    }
    DigitRow { digits, sign_plus: value >= 0, sign_minus: value < 0 }
}

/// The display of `noun` with R1, R2 and R3 showing `r1`, `r2` and `r3`.
pub open spec fn shows_three(d: RegisterDisplay, noun: u8, r1: i32, r2: i32, r3: i32) -> bool {
    &&& d.noun == noun
    &&& shows_signed(d.rows[0], r1)
    &&& shows_signed(d.rows[1], r2)
    &&& shows_signed(d.rows[2], r3)
}

/// Encode a noun display of three signed registers.
pub fn three_register_display(noun: u8, r1: i32, r2: i32, r3: i32) -> (d: RegisterDisplay)
    ensures
        shows_three(d, noun, r1, r2, r3),
{
    let rows = [signed_register_row(r1), signed_register_row(r2), signed_register_row(r3)];
    RegisterDisplay { noun, rows }
}

} // verus!
