use vstd::prelude::*;

verus! {

/// The base64url alphabet: letters, digits, `-` and `_`.
pub open spec fn b64url_byte(v: u8) -> u8 {
    if v < 26 {
        (65 + v) as u8
    } else if v < 52 {
        (71 + v) as u8
    } else if v < 62 {
        (v - 4) as u8
    } else if v == 62 {
        45
    } else {
        95
    }
}

/// The base64url spelling of a byte sequence, without padding: three bytes
/// become four alphabet bytes, a final pair becomes three, a final single
/// byte becomes two.
pub open spec fn spec_b64url(bytes: Seq<u8>) -> Seq<u8>
    decreases bytes.len(),
{
    if bytes.len() == 0 {
        Seq::empty()
    } else if bytes.len() == 1 {
        seq![b64url_byte(bytes[0] / 4), b64url_byte(((bytes[0] % 4) * 16) as u8)]
    } else if bytes.len() == 2 {
        seq![
            b64url_byte(bytes[0] / 4),
            b64url_byte(((bytes[0] % 4) * 16 + bytes[1] / 16) as u8),
            b64url_byte(((bytes[1] % 16) * 4) as u8),
        ]
    } else {
        seq![
            b64url_byte(bytes[0] / 4),
            b64url_byte(((bytes[0] % 4) * 16 + bytes[1] / 16) as u8),
            b64url_byte(((bytes[1] % 16) * 4 + bytes[2] / 64) as u8),
            b64url_byte(bytes[2] % 64),
        ] + spec_b64url(bytes.skip(3))
    }
}

/// Every byte of a base64url spelling is printable ASCII.
pub proof fn lemma_b64url_ascii(bytes: Seq<u8>)
    ensures
        forall|i: int| 0 <= i < spec_b64url(bytes).len() ==> spec_b64url(bytes)[i] < 128,
    decreases bytes.len(),
{
    if bytes.len() > 2 {
        lemma_b64url_ascii(bytes.skip(3));
        assert forall|i: int|
            0 <= i < spec_b64url(bytes).len() implies spec_b64url(bytes)[i] < 128 by {
            if i >= 4 {
                assert(spec_b64url(bytes)[i] == spec_b64url(bytes.skip(3))[i - 4]);
            }
        }
    }
}

/// Writes the base64url spelling of a byte sequence, without padding.
pub fn b64url(bytes: &Vec<u8>) -> (r: Vec<u8>)
    ensures
        r@ == spec_b64url(bytes@),
{
    let mut out: Vec<u8> = Vec::new();
    let mut i: usize = 0;
    proof {
        assert(bytes@.skip(0) =~= bytes@);
    }
    while i < bytes.len() && bytes.len() - i >= 3
        invariant
            i <= bytes.len(),
            spec_b64url(bytes@) == out@ + spec_b64url(bytes@.skip(i as int)),
        decreases bytes.len() - i,
    {
        let b0 = bytes[i];
        let b1 = bytes[i + 1];
        let b2 = bytes[i + 2];
        let ghost rest = bytes@.skip(i as int);
        proof {
            assert(rest.len() >= 3);
            assert(rest[0] == bytes@[i as int]);
            assert(rest[1] == bytes@[i + 1]);
            assert(rest[2] == bytes@[i + 2]);
        }
        out.push(b64_alphabet(b0 / 4));
        out.push(b64_alphabet((b0 % 4) * 16 + b1 / 16));
        out.push(b64_alphabet((b1 % 16) * 4 + b2 / 64));
        out.push(b64_alphabet(b2 % 64));
        proof {
            assert(rest.skip(3) =~= bytes@.skip(i + 3));
            assert(out@ + spec_b64url(bytes@.skip(i + 3)) =~= spec_b64url(bytes@));
        }
        i += 3;
    }
    let n = bytes.len();
    let ghost rest = bytes@.skip(i as int);
    proof {
        assert(rest.len() == n - i < 3);
    }
    if n - i == 1 {
        let b0 = bytes[i];
        proof {
            assert(rest[0] == bytes@[i as int]);
        }
        out.push(b64_alphabet(b0 / 4));
        out.push(b64_alphabet((b0 % 4) * 16));
        proof {
            assert(out@ =~= spec_b64url(bytes@));
        }
    } else if n - i == 2 {
        let b0 = bytes[i];
        let b1 = bytes[i + 1];
        proof {
            assert(rest[0] == bytes@[i as int]);
            assert(rest[1] == bytes@[i + 1]);
        }
        out.push(b64_alphabet(b0 / 4));
        out.push(b64_alphabet((b0 % 4) * 16 + b1 / 16));
        out.push(b64_alphabet((b1 % 16) * 4));
        proof {
            assert(out@ =~= spec_b64url(bytes@));
        }
    } else {
        proof {
            assert(rest =~= Seq::<u8>::empty());
            assert(out@ =~= spec_b64url(bytes@));
        }
    }
    out
}

/// Looks one six-bit value up in the alphabet.
fn b64_alphabet(v: u8) -> (r: u8)
    requires
        v < 64,
    ensures
        r == b64url_byte(v),
{
    if v < 26 {
        65 + v
    } else if v < 52 {
        71 + v
    } else if v < 62 {
        v - 4
    } else if v == 62 {
        45
    } else {
        95
    }
}

} // verus!
