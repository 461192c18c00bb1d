use vstd::prelude::*;

verus! {

/// Decimal digits of `n`, most significant first.
pub open spec fn decimal(n: nat) -> Seq<char>
    decreases n,
{
    if n < 10 {
        seq![(('0' as u8) + (n as u8)) as char]
    } else {
        decimal(n / 10) + decimal(n % 10)
    }
}

/// The ANSI "select graphic rendition" escape for parameter `n`: ESC `[` n `m`.
pub open spec fn sgr(n: nat) -> Seq<char> {
    seq!['\x1b', '['] + decimal(n) + seq!['m']
}

/// Colours that a terminal shows through ANSI escape sequences.
#[derive(Clone, Copy, Debug, PartialEq, Eq, Structural)]
pub enum Color {
    Black,
    Red,
    Green,
    Yellow,
    Blue,
    Magenta,
    Cyan,
    White,
    Reset,
}

impl Color {
    /// The SGR parameter of this colour: 30 to 37 for the foreground colours,
    /// 0 to reset.
    pub open spec fn code_spec(self) -> nat {
        match self {
            Color::Black => 30,
            Color::Red => 31,
            Color::Green => 32,
            Color::Yellow => 33,
            Color::Blue => 34,
            Color::Magenta => 35,
            Color::Cyan => 36,
            Color::White => 37,
            Color::Reset => 0,
        }
    }

    /// Returns the SGR parameter of this colour.
    pub fn code(&self) -> (r: u8)
        ensures
            r as nat == self.code_spec(),
    {
        match self {
            Color::Black => 30,
            Color::Red => 31,
            Color::Green => 32,
            Color::Yellow => 33,
            Color::Blue => 34,
            Color::Magenta => 35,
            Color::Cyan => 36,
            Color::White => 37,
            Color::Reset => 0,
        }
    }

    /// Returns the escape sequence that switches the terminal to this colour.
    pub fn escape(&self) -> (r: &'static str)
        ensures
            r@ == sgr(self.code_spec()),
    {
        let r = match self {
            Color::Black => "\x1b[30m",
            Color::Red => "\x1b[31m",
            Color::Green => "\x1b[32m",
            Color::Yellow => "\x1b[33m",
            Color::Blue => "\x1b[34m",
            Color::Magenta => "\x1b[35m",
            Color::Cyan => "\x1b[36m",
            Color::White => "\x1b[37m",
            Color::Reset => "\x1b[0m",
        };
        proof {
            reveal_strlit("\x1b[30m");
            reveal_strlit("\x1b[31m");
            reveal_strlit("\x1b[32m");
            reveal_strlit("\x1b[33m");
            reveal_strlit("\x1b[34m");
            reveal_strlit("\x1b[35m");
            reveal_strlit("\x1b[36m");
            reveal_strlit("\x1b[37m");
            reveal_strlit("\x1b[0m");
            reveal_with_fuel(decimal, 2);
            assert(r@ =~= sgr(self.code_spec()));
        }
        r
    }
}

} // verus!
