//! Diagnostics raised while schemas are parsed, and the collector that
//! accumulates them.
//!
//! A diagnostic names a file, a position and a message; once recorded it is
//! never mutated or removed, and the collector keeps them in the order they
//! were recorded. Rendering follows the `file:line:column: message` shape.

use vstd::prelude::*;
use vstd::string::*;

verus! {

/// The character for one decimal digit.
pub open spec fn digit_char(d: nat) -> char {
    if d == 0 {
        '0'
    } else if d == 1 {
        '1'
    } else if d == 2 {
        '2'
    } else if d == 3 {
        '3'
    } else if d == 4 {
        '4'
    } else if d == 5 {
        '5'
    } else if d == 6 {
        '6'
    } else if d == 7 {
        '7'
    } else if d == 8 {
        '8'
    } else {
        '9'
    }
}

/// The decimal rendering of a number, most significant digit first, with no
/// leading zeros except for the number zero itself.
pub open spec fn dec_rep(n: nat) -> Seq<char>
    decreases n,
{
    if n < 10 {
        seq![digit_char(n)]
    } else {
        dec_rep(n / 10).push(digit_char(n % 10))
    }
}

/// The characters of a digit list read back to front: the digits were
/// extracted least significant first, the rendering wants them most
/// significant first.
pub open spec fn rev_digits(ds: Seq<u64>) -> Seq<char> {
    Seq::new(ds.len(), |i: int| digit_char(ds[ds.len() - 1 - i] as nat))
}

/// What remains to be rendered when `m` is the yet-unextracted part of the
/// number and `ds` the digits extracted so far.
pub open spec fn dec_state(m: nat, ds: Seq<u64>) -> Seq<char> {
    if m > 0 {
        dec_rep(m) + rev_digits(ds)
    } else {
        rev_digits(ds)
    }
}

/// Extracting the lowest digit of `m` keeps the rendering of the whole.
proof fn lemma_dec_step(m: nat, ds: Seq<u64>)
    requires
        m > 0,
    ensures
        dec_state(m, ds) =~= dec_state(m / 10, ds.push((m % 10) as u64)),
{
    assert(rev_digits(ds.push((m % 10) as u64)) =~= seq![digit_char(m % 10)] + rev_digits(ds));
    if m < 10 {
        assert(dec_rep(m) =~= seq![digit_char(m)]);
    } else {
        assert(dec_rep(m) =~= dec_rep(m / 10) + seq![digit_char(m % 10)]);
    }
}

/// A one-character string for a decimal digit.
fn digit_str(d: u64) -> (r: &'static str)
    requires
        d < 10,
    ensures
        r@ == seq![digit_char(d as nat)],
{
    proof {
        reveal_strlit("0");
        reveal_strlit("1");
        reveal_strlit("2");
        reveal_strlit("3");
        reveal_strlit("4");
        reveal_strlit("5");
        reveal_strlit("6");
        reveal_strlit("7");
        reveal_strlit("8");
        reveal_strlit("9");
    }
    if d == 0 {
        "0"
    } else if d == 1 {
        "1"
    } else if d == 2 {
        "2"
    } else if d == 3 {
        "3"
    } else if d == 4 {
        "4"
    } else if d == 5 {
        "5"
    } else if d == 6 {
        "6"
    } else if d == 7 {
        "7"
    } else if d == 8 {
        "8"
    } else {
        "9"
    }
}

/// Renders a number in decimal.
pub fn u64_to_string(n: u64) -> (r: String)
    ensures
        r@ == dec_rep(n as nat),
{
    let mut ds: Vec<u64> = Vec::new();
    let mut m: u64 = n;
    proof {
        assert(rev_digits(Seq::<u64>::empty()) =~= Seq::<char>::empty());
        if n > 0 {
            assert(dec_state(n as nat, Seq::<u64>::empty()) =~= dec_rep(n as nat));
        } else {
            assert(dec_rep(0) =~= seq![digit_char(0)]);
        }
    }
    ds.push(m % 10);
    proof {
        if n > 0 {
            lemma_dec_step(n as nat, Seq::<u64>::empty());
        } else {
            assert(rev_digits(seq![0u64]) =~= seq![digit_char(0)]);
        }
    }
    m = m / 10;
    while m > 0
        invariant
            forall|k: int| 0 <= k < ds@.len() ==> ds@[k] < 10,
            dec_rep(n as nat) =~= dec_state(m as nat, ds@),
        decreases m,
    {
        proof {
            lemma_dec_step(m as nat, ds@);
        }
        ds.push(m % 10);
        m = m / 10;
    }
    let mut r = String::new();
    let mut i: usize = ds.len();
    while i > 0
        invariant
            i <= ds@.len(),
            forall|k: int| 0 <= k < ds@.len() ==> ds@[k] < 10,
            dec_rep(n as nat) =~= rev_digits(ds@),
            r@ =~= rev_digits(ds@).take(ds@.len() - i),
        decreases i,
    {
        i = i - 1;
        let d = ds[i];
        r.append(digit_str(d));
        proof {
            assert(rev_digits(ds@).take(ds@.len() - i) =~= rev_digits(ds@).take(
                ds@.len() - (i + 1),
            ).push(rev_digits(ds@)[ds@.len() - 1 - i]));
        }
    }
    proof {
        assert(rev_digits(ds@).take(ds@.len() as int) =~= rev_digits(ds@));
    }
    r
}

/// One collected error or warning: the schema file it concerns, a position
/// inside it, and the message text.
pub struct Diagnostic {
    pub file: String,
    pub line: u64,
    pub column: u64,
    pub message: String,
}

/// The `file:line:column: message` rendering of a diagnostic.
pub open spec fn rendered(d: Diagnostic) -> Seq<char> {
    d.file@ + seq![':'] + dec_rep(d.line as nat) + seq![':'] + dec_rep(d.column as nat) + seq![
        ':',
        ' ',
    ] + d.message@
}

impl Diagnostic {
    /// A diagnostic with the given coordinates and message.
    pub fn new(file: String, line: u64, column: u64, message: String) -> (d: Diagnostic)
        ensures
            d.file == file,
            d.line == line,
            d.column == column,
            d.message == message,
    {
        Diagnostic { file, line, column, message }
    }

    /// The operator-visible line for this diagnostic.
    pub fn render(&self) -> (r: String)
        ensures
            r@ == rendered(*self),
    {
        let mut r = self.file.clone();
        r.append(":");
        let line_str = u64_to_string(self.line);
        r.append(line_str.as_str());
        r.append(":");
        let column_str = u64_to_string(self.column);
        r.append(column_str.as_str());
        r.append(": ");
        r.append(self.message.as_str());
        proof {
            reveal_strlit(":");
            reveal_strlit(": ");
            assert(r@ =~= rendered(*self));
        }
        r
    }
}

/// Accumulates the diagnostics raised during parsing, in the order they
/// were raised; nothing ever removes one.
pub struct ConsoleErrorCollector {
    pub diagnostics: Vec<Diagnostic>,
}

impl View for ConsoleErrorCollector {
    type V = Seq<Diagnostic>;

    open spec fn view(&self) -> Seq<Diagnostic> {
        self.diagnostics@
    }
}

impl ConsoleErrorCollector {
    /// A collector with nothing recorded.
    pub fn new() -> (c: ConsoleErrorCollector)
        ensures
            c@ == Seq::<Diagnostic>::empty(),
    {
        let c = ConsoleErrorCollector { diagnostics: Vec::new() };
        proof {
            assert(c@ =~= Seq::<Diagnostic>::empty());
        }
        c
    }

    /// Appends one diagnostic; everything recorded before stays in place.
    pub fn record(&mut self, d: Diagnostic)
        ensures
            final(self)@ == old(self)@.push(d),
    {
        self.diagnostics.push(d);
    }

    /// How many diagnostics have been recorded.
    pub fn len(&self) -> (n: usize)
        ensures
            n == self@.len(),
    {
        self.diagnostics.len()
    }
}

} // verus!
