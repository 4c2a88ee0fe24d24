//! The table that shows the samples: a header, a separator, and one row of
//! left-justified, fixed-width columns per sample.

use vstd::prelude::*;
use vstd::string::*;

verus! {

/// Width of the time column.
pub const TIME_WIDTH: usize = 20;

/// Width of each of the two frequency columns.
pub const FREQUENCY_WIDTH: usize = 15;

/// Width of the separator line.
pub const SEPARATOR_WIDTH: usize = 50;

/// Width of a row whose cells all fit their columns: three columns and the
/// two blanks between them.
pub const ROW_WIDTH: usize = 52;

/// The character of the decimal digit `d`.
pub open spec fn digit_char(d: nat) -> char
    recommends
        d < 10,
{
    seq!['0', '1', '2', '3', '4', '5', '6', '7', '8', '9'][d as int]
}

/// The decimal numeral of `n`, without leading zeros.
pub open spec fn decimal(n: nat) -> Seq<char>
    decreases n,
{
    if n < 10 {
        seq![digit_char(n)]
    } else {
        decimal(n / 10).push(digit_char(n % 10))
    }
}

/// `n` blanks.
pub open spec fn blanks(n: nat) -> Seq<char> {
    Seq::new(n, |i: int| ' ')
}

/// `s` left-justified in a column of `width` characters: padded with blanks
/// on the right where it is shorter, unchanged where it is not.
pub open spec fn left_justified(s: Seq<char>, width: nat) -> Seq<char> {
    if s.len() >= width {
        s
    } else {
        s + blanks((width - s.len()) as nat)
    }
}

/// A row of the table: the three cells, each left-justified in its column,
/// with one blank between columns.
pub open spec fn row(time: Seq<char>, p_cluster: Seq<char>, e_cluster: Seq<char>) -> Seq<char> {
    left_justified(time, TIME_WIDTH as nat) + seq![' '] + left_justified(
        p_cluster,
        FREQUENCY_WIDTH as nat,
    ) + seq![' '] + left_justified(e_cluster, FREQUENCY_WIDTH as nat)
}

/// Ten to the power `k`.
pub open spec fn pow10(k: nat) -> nat
    decreases k,
{
    if k == 0 {
        1
    } else {
        10 * pow10((k - 1) as nat)
    }
}

/// A number below ten to the `k` has at most `k` digits.
pub proof fn decimal_len_bound(n: nat, k: nat)
    requires
        k >= 1,
        n < pow10(k),
    ensures
        1 <= decimal(n).len() <= k,
    decreases k,
{
    if n >= 10 {
        assert(pow10(1) == 10) by {
            reveal_with_fuel(pow10, 2);
        }
        assert(k >= 2);
        assert(n / 10 < pow10((k - 1) as nat));
        decimal_len_bound(n / 10, (k - 1) as nat);
    }
}

/// The numeral of any time stamp fits the time column.
pub proof fn timestamp_fits_column(timestamp: u64)
    ensures
        1 <= decimal(timestamp as nat).len() <= TIME_WIDTH,
{
    assert(pow10(20) == 100_000_000_000_000_000_000nat) by {
        reveal_with_fuel(pow10, 21);
    }
    decimal_len_bound(timestamp as nat, 20);
}

/// Where the cells fit their columns, the row has the same width and the
/// same column positions whatever the cells hold: the time starts at column
/// 0, the performance frequency at column 21, the efficiency frequency at
/// column 37, and all the rest is blank.
pub proof fn row_layout_is_stable(time: Seq<char>, p_cluster: Seq<char>, e_cluster: Seq<char>)
    requires
        time.len() <= TIME_WIDTH,
        p_cluster.len() <= FREQUENCY_WIDTH,
        e_cluster.len() <= FREQUENCY_WIDTH,
    ensures
        row(time, p_cluster, e_cluster).len() == ROW_WIDTH,
        row(time, p_cluster, e_cluster).subrange(0, time.len() as int) == time,
        row(time, p_cluster, e_cluster).subrange(21, 21 + p_cluster.len() as int) == p_cluster,
        row(time, p_cluster, e_cluster).subrange(37, 37 + e_cluster.len() as int) == e_cluster,
        forall|i: int|
            time.len() <= i < 21 ==> #[trigger] row(time, p_cluster, e_cluster)[i] == ' ',
        forall|i: int|
            21 + p_cluster.len() <= i < 37 ==> #[trigger] row(time, p_cluster, e_cluster)[i] == ' ',
        forall|i: int|
            37 + e_cluster.len() <= i < 52 ==> #[trigger] row(time, p_cluster, e_cluster)[i] == ' ',
{
    let r = row(time, p_cluster, e_cluster);
    let t = left_justified(time, TIME_WIDTH as nat);
    let p = left_justified(p_cluster, FREQUENCY_WIDTH as nat);
    let e = left_justified(e_cluster, FREQUENCY_WIDTH as nat);
    assert(t.len() == 20 && p.len() == 15 && e.len() == 15);
    assert(r.len() == 52);
    assert(r.subrange(0, time.len() as int) =~= time);
    assert(r.subrange(21, 21 + p_cluster.len() as int) =~= p_cluster);
    assert(r.subrange(37, 37 + e_cluster.len() as int) =~= e_cluster);
}

/// The row of a sample taken at `timestamp`, for any cells that fit.
pub proof fn sample_row_width_is_stable(timestamp: u64, p_cluster: Seq<char>, e_cluster: Seq<char>)
    requires
        p_cluster.len() <= FREQUENCY_WIDTH,
        e_cluster.len() <= FREQUENCY_WIDTH,
    ensures
        row(decimal(timestamp as nat), p_cluster, e_cluster).len() == ROW_WIDTH,
{
    timestamp_fits_column(timestamp);
    row_layout_is_stable(decimal(timestamp as nat), p_cluster, e_cluster);
}

fn digit_text(d: u64) -> (s: &'static str)
    requires
        d < 10,
    ensures
        s@ == seq![digit_char(d as nat)],
{
    proof {
        reveal_strlit("0");
        reveal_strlit("1");
        reveal_strlit("2");
        reveal_strlit("3");
        reveal_strlit("4");
        reveal_strlit("5");
        reveal_strlit("6");
        reveal_strlit("7");
        reveal_strlit("8");
        reveal_strlit("9");
    }
    let s = if d == 0 {
        "0"
    } else if d == 1 {
        "1"
    } else if d == 2 {
        "2"
    } else if d == 3 {
        "3"
    } else if d == 4 {
        "4"
    } else if d == 5 {
        "5"
    } else if d == 6 {
        "6"
    } else if d == 7 {
        "7"
    } else if d == 8 {
        "8"
    } else {
        "9"
    };
    assert(s@ =~= seq![digit_char(d as nat)]);
    s
}

/// Writes `n` in decimal.
pub fn decimal_text(n: u64) -> (s: String)
    ensures
        s@ == decimal(n as nat),
    decreases n,
{
    if n < 10 {
        String::from_str(digit_text(n))
    } else {
        let mut s = decimal_text(n / 10);
        s.append(digit_text(n % 10));
        s
    }
}

/// Left-justifies `s` in a column of `width` characters.
pub fn left_justify(s: &str, width: usize) -> (r: String)
    ensures
        r@ == left_justified(s@, width as nat),
{
    let len = s.unicode_len();
    let mut r = String::from_str(s);
    if len >= width {
        return r;
    }
    let mut filled: usize = len;
    while filled < width
        invariant
            len <= filled <= width,
            len == s@.len(),
            r@ == s@ + blanks((filled - len) as nat),
        decreases width - filled,
    {
        proof {
            reveal_strlit(" ");
        }
        r.append(" ");
        filled += 1;
        assert(r@ =~= s@ + blanks((filled - len) as nat));
    }
    r
}

/// Lays out one row from the texts of its three cells.
pub fn format_cells(time: &str, p_cluster: &str, e_cluster: &str) -> (r: String)
    ensures
        r@ == row(time@, p_cluster@, e_cluster@),
{
    proof {
        reveal_strlit(" ");
    }
    let mut r = left_justify(time, TIME_WIDTH);
    r.append(" ");
    let p = left_justify(p_cluster, FREQUENCY_WIDTH);
    r.append(p.as_str());
    r.append(" ");
    let e = left_justify(e_cluster, FREQUENCY_WIDTH);
    r.append(e.as_str());
    assert(r@ =~= row(time@, p_cluster@, e_cluster@));
    r
}

/// The row of one sample: the time stamp in epoch seconds, then the texts of
/// the two frequencies.
pub fn format_row(timestamp: u64, p_cluster: &str, e_cluster: &str) -> (r: String)
    ensures
        r@ == row(decimal(timestamp as nat), p_cluster@, e_cluster@),
{
    let time = decimal_text(timestamp);
    format_cells(time.as_str(), p_cluster, e_cluster)
}

/// The line printed once before the table.
pub fn title_line() -> (r: String)
    ensures
        r@ == "CPU Clock Monitor - Press Ctrl+C to stop"@,
{
    String::from_str("CPU Clock Monitor - Press Ctrl+C to stop")
}

/// The header of the table, laid out as a row is.
pub fn header_line() -> (r: String)
    ensures
        r@ == row("Time"@, "P-Core(MHz)"@, "E-Core(MHz)"@),
{
    format_cells("Time", "P-Core(MHz)", "E-Core(MHz)")
}

/// The line under the header: fifty hyphens.
pub fn separator_line() -> (r: String)
    ensures
        r@ == Seq::new(SEPARATOR_WIDTH as nat, |i: int| '-'),
{
    let mut r = String::new();
    let mut n: usize = 0;
    while n < SEPARATOR_WIDTH
        invariant
            n <= SEPARATOR_WIDTH,
            r@ == Seq::new(n as nat, |i: int| '-'),
        decreases SEPARATOR_WIDTH - n,
    {
        proof {
            reveal_strlit("-");
        }
        r.append("-");
        n += 1;
        assert(r@ =~= Seq::new(n as nat, |i: int| '-'));
    }
    r
}

} // verus!
