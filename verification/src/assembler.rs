use vstd::prelude::*;

use crate::errors::AsmError;

verus! {

/// Whether `b` separates tokens: space, tab, line feed or carriage return.
pub open spec fn is_ws(b: u8) -> bool {
    b == 32 || b == 9 || b == 10 || b == 13
}

/// The value of a base-16 digit byte, if it is one; both letter cases count.
pub open spec fn hex_val(b: u8) -> Option<u8> {
    if 48 <= b <= 57 {
        Some((b - 48) as u8)
    } else if 97 <= b <= 102 {
        Some((b - 87) as u8)
    } else if 65 <= b <= 70 {
        Some((b - 55) as u8)
    } else {
        None
    }
}

/// What assembling a byte text yields, read from a position between tokens:
/// the bytes of the remaining tokens in order, or the first failure.
pub open spec fn spec_assemble(s: Seq<u8>) -> Result<Seq<u8>, AsmError>
    decreases s.len(), 1int,
{
    if s.len() == 0 {
        Ok(Seq::empty())
    } else if is_ws(s[0]) {
        spec_assemble(s.drop_first())
    } else {
        spec_assemble_token(s, 0)
    }
}

/// What assembling yields from inside a token whose digits so far have the
/// value `acc`: digits extend the value base-16, a separator or the end emits
/// it, a non-digit or a value past 0xFF is the failure of the whole text.
pub open spec fn spec_assemble_token(s: Seq<u8>, acc: u8) -> Result<Seq<u8>, AsmError>
    decreases s.len(), 0int,
{
    if s.len() == 0 {
        Ok(seq![acc])
    } else if is_ws(s[0]) {
        match spec_assemble(s.drop_first()) {
            Ok(rest) => Ok(seq![acc] + rest),
            Err(e) => Err(e),
        }
    } else {
        match hex_val(s[0]) {
            None => Err(AsmError::BadDigit(s[0])),
            Some(d) => if acc * 16 + d > 255 {
                Err(AsmError::TooLarge)
            } else {
                spec_assemble_token(s.drop_first(), (acc * 16 + d) as u8)
            },
        }
    }
}

/// `r` with `prefix` prepended to its output, failures passed through.
pub open spec fn glue(prefix: Seq<u8>, r: Result<Seq<u8>, AsmError>) -> Result<Seq<u8>, AsmError> {
    match r {
        Ok(rest) => Ok(prefix + rest),
        Err(e) => Err(e),
    }
}

proof fn lemma_glue_nil(r: Result<Seq<u8>, AsmError>)
    ensures
        glue(Seq::empty(), r) == r,
{
    match r {
        Ok(rest) => {
            assert(Seq::<u8>::empty() + rest =~= rest);
        },
        Err(_) => {},
    }
}

proof fn lemma_glue_glue(p1: Seq<u8>, p2: Seq<u8>, r: Result<Seq<u8>, AsmError>)
    ensures
        glue(p1, glue(p2, r)) == glue(p1 + p2, r),
{
    match r {
        Ok(rest) => {
            assert(p1 + (p2 + rest) =~= (p1 + p2) + rest);
        },
        Err(_) => {},
    }
}

/// Executable test for a separator byte.
fn is_ws_byte(b: u8) -> (r: bool)
    ensures
        r == is_ws(b),
{
    b == 32 || b == 9 || b == 10 || b == 13
}

/// Executable base-16 digit value.
fn hex_digit(b: u8) -> (r: Option<u8>)
    ensures
        r == hex_val(b),
{
    if 48 <= b && b <= 57 {
        Some(b - 48)
    } else if 97 <= b && b <= 102 {
        Some(b - 87)
    } else if 65 <= b && b <= 70 {
        Some(b - 55)
    } else {
        None
    }
}

/// Assembles a text of whitespace-separated base-16 byte tokens into the raw
/// concatenation of those bytes, in input order. Any token holding a byte
/// that is no base-16 digit, or whose value does not fit in eight bits,
/// aborts the whole conversion with the first such failure: no partial
/// output is returned.
pub fn assemble(src: &Vec<u8>) -> (r: Result<Vec<u8>, AsmError>)
    ensures
        ({
            match r {
                Ok(out) => spec_assemble(src@) == Ok::<Seq<u8>, AsmError>(out@),
                Err(e) => spec_assemble(src@) == Err::<Seq<u8>, AsmError>(e),
            }
        }),
{
    let mut out: Vec<u8> = Vec::new();
    let mut i: usize = 0;
    let mut in_tok = false;
    let mut acc: u8 = 0;
    proof {
        assert(src@.skip(0) =~= src@);
        lemma_glue_nil(spec_assemble(src@));
    }
    while i < src.len()
        invariant
            i <= src@.len(),
            in_tok ==> spec_assemble(src@) == glue(
                out@,
                spec_assemble_token(src@.skip(i as int), acc),
            ),
            !in_tok ==> spec_assemble(src@) == glue(out@, spec_assemble(src@.skip(i as int))),
        decreases src@.len() - i,
    {
        let ghost s0 = src@.skip(i as int);
        proof {
            assert(s0.len() > 0);
            assert(s0[0] == src@[i as int]);
            assert(s0.drop_first() =~= src@.skip(i as int + 1));
        }
        let b = src[i];
        if in_tok {
            if is_ws_byte(b) {
                let ghost out0 = out@;
                out.push(acc);
                proof {
                    assert(spec_assemble_token(s0, acc) == glue(
                        seq![acc],
                        spec_assemble(s0.drop_first()),
                    ));
                    lemma_glue_glue(out0, seq![acc], spec_assemble(s0.drop_first()));
                    assert(out0 + seq![acc] =~= out@);
                }
                in_tok = false;
                acc = 0;
            } else {
                match hex_digit(b) {
                    None => {
                        return Err(AsmError::BadDigit(b));
                    },
                    Some(d) => {
                        let wide: u16 = acc as u16 * 16 + d as u16;
                        if wide > 255 {
                            return Err(AsmError::TooLarge);
                        }
                        acc = wide as u8;
                    },
                }
            }
        } else {
            if is_ws_byte(b) {
                proof {
                    assert(spec_assemble(s0) == spec_assemble(s0.drop_first()));
                }
            } else {
                proof {
                    assert(spec_assemble(s0) == spec_assemble_token(s0, 0));
                }
                match hex_digit(b) {
                    None => {
                        return Err(AsmError::BadDigit(b));
                    },
                    Some(d) => {
                        in_tok = true;
                        acc = d;
                    },
                }
            }
        }
        i += 1;
    }
    proof {
        assert(src@.skip(i as int).len() == 0);
    }
    if in_tok {
        let ghost out0 = out@;
        out.push(acc);
        proof {
            assert(spec_assemble_token(src@.skip(i as int), acc) == Ok::<Seq<u8>, AsmError>(
                seq![acc],
            ));
            assert(out0 + seq![acc] =~= out@);
        }
        Ok(out)
    } else {
        proof {
            assert(spec_assemble(src@.skip(i as int)) == Ok::<Seq<u8>, AsmError>(Seq::empty()));
            assert(out@ + Seq::<u8>::empty() =~= out@);
        }
        Ok(out)
    }
}

} // verus!
