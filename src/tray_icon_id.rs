use vstd::prelude::*;
use vstd::string::StringExecFns;

verus! {

/// The base-ten digit `d` as a character.
pub open spec fn digit_char(d: nat) -> char {
    seq!['0', '1', '2', '3', '4', '5', '6', '7', '8', '9'][d as int]
}

/// The base-ten spelling of `n`: no sign, no leading zeros.
pub open spec fn decimal(n: nat) -> Seq<char>
    decreases n,
{
    if n < 10 {
        seq![digit_char(n)]
    } else {
        decimal(n / 10) + seq![digit_char(n % 10)]
    }
}

/// Relies on `u32`'s `Display` (through `ToString::to_string`), which writes
/// the number in base ten without sign or leading zeros.
#[verifier::external_body]
fn decimal_text(n: u32) -> (r: String)
    ensures
        r@ == decimal(n as nat),
{
    n.to_string()
}

proof fn lemma_decimal_len(n: nat)
    ensures
        decimal(n).len() >= 1,
        n >= 10 ==> decimal(n).len() >= 2,
    decreases n,
{
    if n >= 10 {
        lemma_decimal_len(n / 10);
    }
}

/// Different numbers are spelled differently.
pub proof fn lemma_decimal_injective(a: nat, b: nat)
    requires
        decimal(a) == decimal(b),
    ensures
        a == b,
    decreases a,
{
    lemma_decimal_len(a);
    lemma_decimal_len(b);
    let da = decimal(a);
    let db = decimal(b);
    assert(da[da.len() - 1] == digit_char(a % 10));
    assert(db[db.len() - 1] == digit_char(b % 10));
    assert(a % 10 == b % 10);
    if a >= 10 && b >= 10 {
        assert(decimal(a / 10) =~= da.drop_last());
        assert(decimal(b / 10) =~= db.drop_last());
        lemma_decimal_injective(a / 10, b / 10);
    }
}

/// Names one tray icon for the life of the process; events carry it back.
#[derive(Debug, Hash)]
pub struct TrayIconId(pub String);

impl TrayIconId {
    /// An identifier with the given text.
    pub fn new(id: &str) -> (r: TrayIconId)
        ensures
            r.0@ == id@,
    {
        TrayIconId(String::from_str(id))
    }

    /// The identifier that stands for the number `n`: its base-ten spelling.
    pub fn from_number(n: u32) -> (r: TrayIconId)
        ensures
            r.0@ == decimal(n as nat),
    {
        TrayIconId(decimal_text(n))
    }

    /// The identifier's text.
    pub fn as_str(&self) -> (r: &str)
        ensures
            r@ == self.0@,
    {
        self.0.as_str()
    }

    /// Whether two identifiers have the same text.
    pub fn same_as(&self, other: &TrayIconId) -> (r: bool)
        ensures
            r == (self.0@ == other.0@),
    {
        let a = self.0.as_str();
        let b = other.0.as_str();
        let n = a.unicode_len();
        if n != b.unicode_len() {
            return false;
        }
        let mut i: usize = 0;
        while i < n
            invariant
                n == a@.len(),
                n == b@.len(),
                a@ == self.0@,
                b@ == other.0@,
                0 <= i <= n,
                a@.subrange(0, i as int) == b@.subrange(0, i as int),
            decreases n - i,
        {
            if a.get_char(i) != b.get_char(i) {
                assert(a@[i as int] != b@[i as int]);
                return false;
            }
            assert(a@.subrange(0, i + 1) =~= a@.subrange(0, i as int).push(a@[i as int]));
            assert(b@.subrange(0, i + 1) =~= b@.subrange(0, i as int).push(b@[i as int]));
            i = i + 1;
        }
        assert(a@ =~= a@.subrange(0, n as int));
        assert(b@ =~= b@.subrange(0, n as int));
        true
    }
}

impl Default for TrayIconId {
    /// The identifier with empty text.
    fn default() -> (r: TrayIconId)
        ensures
            r.0@ == Seq::<char>::empty(),
    {
        proof {
            reveal_strlit("");
        }
        TrayIconId(String::from_str(""))
    }
}

impl Clone for TrayIconId {
    fn clone(&self) -> (r: TrayIconId)
        ensures
            r.0@ == self.0@,
    {
        TrayIconId(self.0.clone())
    }
}

/// Identifiers made from different numbers are different.
pub proof fn lemma_numbered_ids_distinct(a: u32, b: u32, x: TrayIconId, y: TrayIconId)
    requires
        x.0@ == decimal(a as nat),
        y.0@ == decimal(b as nat),
        a != b,
    ensures
        x.0@ != y.0@,
{
    if x.0@ == y.0@ {
        lemma_decimal_injective(a as nat, b as nat);
    }
}

} // verus!
