use vstd::prelude::*;
use vstd::string::*;

verus! {

/// One hexadecimal digit, for a number below sixteen.
pub open spec fn hex_digit(n: u8) -> Seq<char> {
    if n == 0 {
        "0"@
    } else if n == 1 {
        "1"@
    } else if n == 2 {
        "2"@
    } else if n == 3 {
        "3"@
    } else if n == 4 {
        "4"@
    } else if n == 5 {
        "5"@
    } else if n == 6 {
        "6"@
    } else if n == 7 {
        "7"@
    } else if n == 8 {
        "8"@
    } else if n == 9 {
        "9"@
    } else if n == 10 {
        "a"@
    } else if n == 11 {
        "b"@
    } else if n == 12 {
        "c"@
    } else if n == 13 {
        "d"@
    } else if n == 14 {
        "e"@
    } else {
        "f"@
    }
}

/// Two hexadecimal digits for each byte, in order.
pub open spec fn hex_text(bytes: Seq<u8>) -> Seq<char>
    decreases bytes.len(),
{
    if bytes.len() == 0 {
        Seq::empty()
    } else {
        hex_text(bytes.drop_last()) + hex_digit(bytes.last() / 16) + hex_digit(bytes.last() % 16)
    }
}

/// The digit of `n` as a string slice.
pub fn hex_digit_str(n: u8) -> (digit: &'static str)
    ensures
        digit@ == hex_digit(n),
{
    if n == 0 {
        "0"
    } else if n == 1 {
        "1"
    } else if n == 2 {
        "2"
    } else if n == 3 {
        "3"
    } else if n == 4 {
        "4"
    } else if n == 5 {
        "5"
    } else if n == 6 {
        "6"
    } else if n == 7 {
        "7"
    } else if n == 8 {
        "8"
    } else if n == 9 {
        "9"
    } else if n == 10 {
        "a"
    } else if n == 11 {
        "b"
    } else if n == 12 {
        "c"
    } else if n == 13 {
        "d"
    } else if n == 14 {
        "e"
    } else {
        "f"
    }
}

/// A field element, held as its big-endian bytes.
#[derive(Clone, Debug)]
pub struct Value {
    pub bytes: Vec<u8>,
}

impl Value {
    /// The bytes of the element, most significant first.
    pub open spec fn view(&self) -> Seq<u8> {
        self.bytes@
    }

    /// The element as text: `0x` and two lower-case hexadecimal digits for
    /// each byte.
    pub open spec fn spec_text(&self) -> Seq<char> {
        "0x"@ + hex_text(self.bytes@)
    }

    /// Wraps big-endian bytes as a value.
    pub fn new(bytes: Vec<u8>) -> (value: Value)
        ensures
            value@ == bytes@,
    {
        Value { bytes }
    }

    /// Renders the element as text.
    pub fn to_text(&self) -> (out: String)
        ensures
            out@ == self.spec_text(),
    {
        let mut out = String::from_str("0x");
        let mut i: usize = 0;
        while i < self.bytes.len()
            invariant
                i <= self.bytes.len(),
                out@ == "0x"@ + hex_text(self.bytes@.take(i as int)),
            decreases self.bytes.len() - i,
        {
            let byte = self.bytes[i];
            proof {
                let longer = self.bytes@.take(i as int + 1);
                assert(longer.drop_last() =~= self.bytes@.take(i as int));
                assert(longer.last() == byte);
                assert(("0x"@ + hex_text(self.bytes@.take(i as int))) + hex_digit(byte / 16)
                    + hex_digit(byte % 16) =~= "0x"@ + hex_text(longer));
            }
            out.append(hex_digit_str(byte / 16));
            out.append(hex_digit_str(byte % 16));
            i = i + 1;
        }
        proof {
            assert(self.bytes@.take(self.bytes.len() as int) =~= self.bytes@);
            assert("0x"@ + Seq::<char>::empty() =~= "0x"@);
        }
        out
    }
}

} // verus!
