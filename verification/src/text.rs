//! Text pieces that the descriptions of files and descriptors are put together from.

use vstd::prelude::*;

verus! {

/// The names in order, with ` | ` between two neighbours.
pub open spec fn joined(names: Seq<Seq<char>>) -> Seq<char>
    decreases names.len(),
{
    if names.len() == 0 {
        Seq::empty()
    } else if names.len() == 1 {
        names[0]
    } else {
        joined(names.drop_last()) + " | "@ + names.last()
    }
}

/// How a set of flags reads: the joined names of its members, or `(empty)` if there are none.
pub open spec fn flags_text(names: Seq<Seq<char>>) -> Seq<char> {
    if names.len() == 0 {
        "(empty)"@
    } else {
        joined(names)
    }
}

/// `names`, followed by `name` if `present`.
pub open spec fn with_name(names: Seq<Seq<char>>, present: bool, name: Seq<char>) -> Seq<Seq<char>> {
    if present {
        names.push(name)
    } else {
        names
    }
}

/// Collects the names of the members of a set of flags into the text that describes the set.
pub struct FlagsText {
    text: String,
    is_empty: bool,
    names: Ghost<Seq<Seq<char>>>,
}

impl FlagsText {
    /// The names collected so far.
    pub closed spec fn names(&self) -> Seq<Seq<char>> {
        self.names@
    }

    #[verifier::type_invariant]
    spec fn well_formed(self) -> bool {
        &&& self.text@ == joined(self.names@)
        &&& self.is_empty == (self.names@.len() == 0)
    }

    /// A collection of no names.
    pub fn new() -> (collected: FlagsText)
        ensures
            collected.names() == Seq::<Seq<char>>::empty(),
    {
        FlagsText { text: String::new(), is_empty: true, names: Ghost(Seq::empty()) }
    }

    /// Adds `name` if `present`.
    pub fn with(self, present: bool, name: &str) -> (collected: FlagsText)
        ensures
            collected.names() == with_name(self.names(), present, name@),
    {
        proof {
            use_type_invariant(&self);
        }
        if !present {
            return self;
        }
        let FlagsText { mut text, is_empty, names } = self;
        let ghost all = names@.push(name@);
        proof {
            assert(all.drop_last() =~= names@);
        }
        if !is_empty {
            text.append(" | ");
        }
        text.append(name);
        proof {
            assert(text@ =~= joined(all));
        }
        FlagsText { text, is_empty: false, names: Ghost(all) }
    }

    /// The text for the collected names.
    pub fn finish(self) -> (text: String)
        ensures
            text@ == flags_text(self.names()),
    {
        proof {
            use_type_invariant(&self);
        }
        if self.is_empty {
            String::from_str("(empty)")
        } else {
            self.text
        }
    }
}

/// A hexadecimal digit.
pub open spec fn digit(value: usize) -> Seq<char>
    recommends
        value < 16,
{
    match value {
        0 => "0"@,
        1 => "1"@,
        2 => "2"@,
        3 => "3"@,
        4 => "4"@,
        5 => "5"@,
        6 => "6"@,
        7 => "7"@,
        8 => "8"@,
        9 => "9"@,
        10 => "a"@,
        11 => "b"@,
        12 => "c"@,
        13 => "d"@,
        14 => "e"@,
        _ => "f"@,
    }
}

/// A number in hexadecimal digits.
pub open spec fn hexadecimal(value: usize) -> Seq<char>
    decreases value,
{
    if value < 16 {
        digit(value)
    } else {
        hexadecimal(value / 16) + digit(value % 16)
    }
}

/// How an address reads.
pub open spec fn address_text(address: usize) -> Seq<char> {
    "0x"@ + hexadecimal(address)
}

/// The digit for a value below sixteen.
fn digit_string(value: usize) -> (text: &'static str)
    requires
        value < 16,
    ensures
        text@ == digit(value),
{
    match value {
        0 => "0",
        1 => "1",
        2 => "2",
        3 => "3",
        4 => "4",
        5 => "5",
        6 => "6",
        7 => "7",
        8 => "8",
        9 => "9",
        10 => "a",
        11 => "b",
        12 => "c",
        13 => "d",
        14 => "e",
        _ => "f",
    }
}

/// The number in hexadecimal digits.
fn hexadecimal_string(value: usize) -> (text: String)
    ensures
        text@ == hexadecimal(value),
    decreases value,
{
    if value < 16 {
        String::from_str(digit_string(value))
    } else {
        let mut text = hexadecimal_string(value / 16);
        text.append(digit_string(value % 16));
        text
    }
}

/// The address as it reads.
pub fn address_string(address: usize) -> (text: String)
    ensures
        text@ == address_text(address),
{
    let mut text = String::from_str("0x");
    text.append(hexadecimal_string(address).as_str());
    text
}

/// The names of a set of flags read in order, with ` | ` between any two that follow each other. A
/// set without flags reads `(empty)`.
pub proof fn law_flags_text(names: Seq<Seq<char>>, name: Seq<char>)
    ensures
        flags_text(Seq::empty()) == "(empty)"@,
        flags_text(seq![name]) == name,
        names.len() > 0 ==> flags_text(names.push(name)) == flags_text(names) + " | "@ + name,
        with_name(names, true, name) == names.push(name),
        with_name(names, false, name) == names,
{
    assert(names.push(name).drop_last() =~= names);
    assert(seq![name].drop_last() =~= Seq::empty());
}

/// The number that hexadecimal digits in lower case stand for.
pub open spec fn number_of(text: Seq<char>) -> int
    decreases text.len(),
{
    if text.len() == 0 {
        0
    } else {
        let last = text.last();
        16 * number_of(text.drop_last()) + if '0' <= last <= '9' {
            last as int - '0' as int
        } else {
            last as int - 'a' as int + 10
        }
    }
}

/// A digit is one character, and stands for its value.
proof fn lemma_digit(value: usize)
    requires
        value < 16,
    ensures
        digit(value).len() == 1,
        '0' <= digit(value)[0] <= '9' || 'a' <= digit(value)[0] <= 'f',
        '0' <= digit(value)[0] <= '9' ==> digit(value)[0] as int - '0' as int == value,
        'a' <= digit(value)[0] <= 'f' ==> digit(value)[0] as int - 'a' as int + 10 == value,
        digit(value)[0] == '0' <==> value == 0,
{
    reveal_strlit("0");
    reveal_strlit("1");
    reveal_strlit("2");
    reveal_strlit("3");
    reveal_strlit("4");
    reveal_strlit("5");
    reveal_strlit("6");
    reveal_strlit("7");
    reveal_strlit("8");
    reveal_strlit("9");
    reveal_strlit("a");
    reveal_strlit("b");
    reveal_strlit("c");
    reveal_strlit("d");
    reveal_strlit("e");
    reveal_strlit("f");
}

/// An address reads `0x`, followed by hexadecimal digits in lower case that stand for it. The first
/// of them is zero only if the address is.
pub proof fn law_address_text(address: usize)
    ensures
        address_text(address) == "0x"@ + hexadecimal(address),
        number_of(hexadecimal(address)) == address,
        hexadecimal(address).len() > 0,
        hexadecimal(address)[0] == '0' <==> address == 0,
        forall|i: int|
            0 <= i < hexadecimal(address).len() ==> '0' <= #[trigger] hexadecimal(address)[i] <= '9'
                || 'a' <= hexadecimal(address)[i] <= 'f',
    decreases address,
{
    reveal_with_fuel(number_of, 2);
    if address < 16 {
        lemma_digit(address);
        assert(hexadecimal(address).drop_last() =~= Seq::empty());
    } else {
        law_address_text(address / 16);
        lemma_digit(address % 16);
        let front = hexadecimal(address / 16);
        assert(hexadecimal(address).drop_last() =~= front);
        assert(hexadecimal(address).last() == digit(address % 16)[0]);
        assert(hexadecimal(address)[0] == front[0]);
        assert forall|i: int| 0 <= i < hexadecimal(address).len() implies '0'
            <= #[trigger] hexadecimal(address)[i] <= '9' || 'a' <= hexadecimal(address)[i]
            <= 'f' by {
            if i < front.len() {
                assert(hexadecimal(address)[i] == front[i]);
            } else {
                assert(hexadecimal(address)[i] == digit(address % 16)[0]);
            }
        }
    }
}

} // verus!
