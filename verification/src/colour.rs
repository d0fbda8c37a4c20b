//! The colour of a paint, as sixteen bit red, green and blue components.

use vstd::prelude::*;

use crate::text::push_char;

verus! {

/// A colour as sixteen bit red, green and blue components.
#[derive(PartialEq, Eq, Structural, Clone, Copy, Debug, Hash)]
pub struct Rgb16 {
    pub red: u16,
    pub green: u16,
    pub blue: u16,
}

/// The upper case hexadecimal digit for `n`, where `n < 16`.
pub open spec fn hex_digit(n: nat) -> char {
    if n < 10 {
        (('0' as u32) + n) as char
    } else {
        (('A' as u32) + (n - 10)) as char
    }
}

/// The two hexadecimal digits of the high byte of a component.
pub open spec fn high_byte_hex(c: u16) -> Seq<char> {
    seq![hex_digit((c / 4096) as nat), hex_digit(((c / 256) % 16) as nat)]
}

fn hex_digit_of(n: u16) -> (r: char)
    requires
        n < 16,
    ensures
        r == hex_digit(n as nat),
{
    let digits: [char; 16] = [
        '0',
        '1',
        '2',
        '3',
        '4',
        '5',
        '6',
        '7',
        '8',
        '9',
        'A',
        'B',
        'C',
        'D',
        'E',
        'F',
    ];
    let r = digits[n as usize];
    assert(r == hex_digit(n as nat)) by {
        assert(('0' as u32) == 48);
        assert(('A' as u32) == 65);
    }
    r
}

impl Rgb16 {
    pub fn new(red: u16, green: u16, blue: u16) -> (r: Rgb16)
        ensures
            r == (Rgb16 { red, green, blue }),
    {
        Rgb16 { red, green, blue }
    }

    /// The colour as Pango writes it: `#` and two upper case hexadecimal
    /// digits for the high byte of each of red, green and blue.
    pub open spec fn spec_pango_string(self) -> Seq<char> {
        seq!['#'] + high_byte_hex(self.red) + high_byte_hex(self.green) + high_byte_hex(self.blue)
    }

    /// The colour as Pango writes it, such as `#FF8000`.
    pub fn pango_string(&self) -> (r: String)
        ensures
            r@ == self.spec_pango_string(),
    {
        let mut s = String::new();
        push_char(&mut s, '#');
        let components: [u16; 3] = [self.red, self.green, self.blue];
        let mut i: usize = 0;
        while i < 3
            invariant
                0 <= i <= 3,
                components@ == seq![self.red, self.green, self.blue],
                s@ == seq!['#'] + (if i == 0 {
                    Seq::<char>::empty()
                } else if i == 1 {
                    high_byte_hex(self.red)
                } else if i == 2 {
                    high_byte_hex(self.red) + high_byte_hex(self.green)
                } else {
                    high_byte_hex(self.red) + high_byte_hex(self.green) + high_byte_hex(
                        self.blue,
                    )
                }),
            decreases 3 - i,
        {
            let c = components[i];
            push_char(&mut s, hex_digit_of(c / 4096));
            push_char(&mut s, hex_digit_of((c / 256) % 16));
            proof {
                if i == 0 {
                    assert(s@ =~= seq!['#'] + high_byte_hex(self.red));
                } else if i == 1 {
                    assert(s@ =~= seq!['#'] + (high_byte_hex(self.red) + high_byte_hex(
                        self.green,
                    )));
                } else {
                    assert(s@ =~= seq!['#'] + (high_byte_hex(self.red) + high_byte_hex(
                        self.green,
                    ) + high_byte_hex(self.blue)));
                }
            }
            i = i + 1;
        }
        assert(s@ =~= self.spec_pango_string());
        s
    }
}

} // verus!
