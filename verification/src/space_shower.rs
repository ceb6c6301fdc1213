use vstd::prelude::*;
use crate::error::XiloError;

verus! {

/// The decimal digit for a value below ten.
pub open spec fn digit_char(d: nat) -> char {
    if d == 0 {
        '0'
    } else if d == 1 {
        '1'
    } else if d == 2 {
        '2'
    } else if d == 3 {
        '3'
    } else if d == 4 {
        '4'
    } else if d == 5 {
        '5'
    } else if d == 6 {
        '6'
    } else if d == 7 {
        '7'
    } else if d == 8 {
        '8'
    } else {
        '9'
    }
}

/// The usual decimal rendering of a number, without leading zeroes.
pub open spec fn dec_str(n: nat) -> Seq<char>
    decreases n,
{
    if n < 10 {
        seq![digit_char(n)]
    } else {
        dec_str(n / 10) + seq![digit_char(n % 10)]
    }
}

/// One magnitude segment: the value followed by its unit letter and a space,
/// or nothing at all when the value is zero.
pub open spec fn size_segment(v: nat, unit: Seq<char>) -> Seq<char> {
    if v > 0 {
        dec_str(v) + unit
    } else {
        Seq::<char>::empty()
    }
}

/// The human-readable rendering of a byte count: decimal-power units from
/// petabyte down to kilobyte, each emitted only when nonzero, then the byte
/// remainder unconditionally. A size of an exabyte or more gets a fixed
/// out-of-range sentinel instead.
pub open spec fn size_fmt(n: nat) -> Seq<char> {
    if n >= 1000000000000000000 {
        "Are you really using a normal computer?"@
    } else {
        size_segment((n % 1000000000000000000) / 1000000000000000, "P "@) + size_segment(
            (n % 1000000000000000) / 1000000000000,
            "T "@,
        ) + size_segment((n % 1000000000000) / 1000000000, "G "@) + size_segment(
            (n % 1000000000) / 1000000,
            "M "@,
        ) + size_segment((n % 1000000) / 1000, "K "@) + dec_str(n % 1000) + "B"@
    }
}

fn push_digit(s: &mut String, d: u64)
    requires
        d < 10,
    ensures
        final(s)@ == old(s)@ + seq![digit_char(d as nat)],
{
    proof {
        reveal_strlit("0");
        reveal_strlit("1");
        reveal_strlit("2");
        reveal_strlit("3");
        reveal_strlit("4");
        reveal_strlit("5");
        reveal_strlit("6");
        reveal_strlit("7");
        reveal_strlit("8");
        reveal_strlit("9");
    }
    if d == 0 {
        s.append("0");
    } else if d == 1 {
        s.append("1");
    } else if d == 2 {
        s.append("2");
    } else if d == 3 {
        s.append("3");
    } else if d == 4 {
        s.append("4");
    } else if d == 5 {
        s.append("5");
    } else if d == 6 {
        s.append("6");
    } else if d == 7 {
        s.append("7");
    } else if d == 8 {
        s.append("8");
    } else {
        s.append("9");
    }
    proof {
        assert(s@ =~= old(s)@ + seq![digit_char(d as nat)]);
    }
}

/// Renders a number in decimal.
pub fn u64_to_dec(n: u64) -> (r: String)
    ensures
        r@ == dec_str(n as nat),
    decreases n,
{
    if n < 10 {
        let mut s = String::new();
        push_digit(&mut s, n);
        proof {
            assert(s@ =~= dec_str(n as nat));
        }
        s
    } else {
        proof {
            assert(n / 10 < n) by (nonlinear_arith)
                requires
                    n >= 10,
            ;
        }
        let mut s = u64_to_dec(n / 10);
        push_digit(&mut s, n % 10);
        s
    }
}

/// Formats a raw byte count into the human-readable magnitude string.
#[verifier::rlimit(30)]
pub fn space_data_formatter(raw_size: u64) -> (r: String)
    ensures
        r@ == size_fmt(raw_size as nat),
{
    if raw_size >= 1000000000000000000 {
        return String::from_str("Are you really using a normal computer?");
    }
    let byte: u64 = raw_size % 1000;
    let kilo_byte: u64 = (raw_size % 1000000) / 1000;
    let mega_byte: u64 = (raw_size % 1000000000) / 1000000;
    let giga_byte: u64 = (raw_size % 1000000000000) / 1000000000;
    let tera_byte: u64 = (raw_size % 1000000000000000) / 1000000000000;
    let peta_byte: u64 = (raw_size % 1000000000000000000) / 1000000000000000;
    let ghost p = size_segment(peta_byte as nat, "P "@);
    let ghost t = size_segment(tera_byte as nat, "T "@);
    let ghost g = size_segment(giga_byte as nat, "G "@);
    let ghost m = size_segment(mega_byte as nat, "M "@);
    let ghost k = size_segment(kilo_byte as nat, "K "@);
    let mut output = String::new();
    if peta_byte > 0 {
        output.append(u64_to_dec(peta_byte).as_str());
        output.append("P ");
    }
    proof {
        assert(output@ =~= p);
    }
    if tera_byte > 0 {
        output.append(u64_to_dec(tera_byte).as_str());
        output.append("T ");
    }
    proof {
        assert(output@ =~= p + t);
    }
    if giga_byte > 0 {
        output.append(u64_to_dec(giga_byte).as_str());
        output.append("G ");
    }
    proof {
        assert(output@ =~= p + t + g);
    }
    if mega_byte > 0 {
        output.append(u64_to_dec(mega_byte).as_str());
        output.append("M ");
    }
    proof {
        assert(output@ =~= p + t + g + m);
    }
    if kilo_byte > 0 {
        output.append(u64_to_dec(kilo_byte).as_str());
        output.append("K ");
    }
    proof {
        assert(output@ =~= p + t + g + m + k);
    }
    output.append(u64_to_dec(byte).as_str());
    output.append("B");
    proof {
        assert(output@ =~= size_fmt(raw_size as nat));
    }
    output
}

/// Relies on fs_extra::dir::get_size: the total byte size of the tree under
/// the given path. The value depends on what is on disk, so nothing is
/// promised of it.
#[verifier::external_body]
fn dir_size(path: &str) -> Result<u64, String> {
    match fs_extra::dir::get_size(path) {
        Ok(n) => Ok(n),
        Err(e) => Err(format!("{}", e)),
    }
}

/// Space accounting over the trashbin tree.
pub struct SpaceShower {
    pub trashbin_path: String,
}

impl SpaceShower {
    pub fn new(path: String) -> (r: Self)
        ensures
            r.trashbin_path@ == path@,
    {
        SpaceShower { trashbin_path: path }
    }

    /// The raw byte count of the trashbin tree, as the disk reports it; the
    /// only failure is the walker's cause, wrapped as an I/O error.
    pub fn get_raw_space(&self) -> (r: Result<u64, XiloError>)
        ensures
            r matches Err(e) ==> e is IOErr,
    {
        match dir_size(self.trashbin_path.as_str()) {
            Ok(n) => Ok(n),
            Err(e) => Err(XiloError::IOErr(e)),
        }
    }

    /// The trashbin tree's size, formatted; whatever the disk reported, the
    /// result is the exact rendering of that count, and the only failure is
    /// the walker's cause, wrapped as an I/O error.
    pub fn get_space(&self) -> (r: Result<String, XiloError>)
        ensures
            r matches Ok(s) ==> exists|n: nat| s@ == size_fmt(n),
            r matches Err(e) ==> e is IOErr,
    {
        match self.get_raw_space() {
            Ok(n) => {
                let s = space_data_formatter(n);
                proof {
                    assert(exists|m: nat| s@ == size_fmt(m)) by {
                        assert(s@ == size_fmt(n as nat));
                    }
                }
                Ok(s)
            },
            Err(e) => Err(e),
        }
    }
}

} // verus!
