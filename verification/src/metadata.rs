use vstd::prelude::*;

verus! {

/// The decimal digits of `n`, most significant first, as ASCII bytes.
pub open spec fn spec_decimal(n: nat) -> Seq<u8>
    decreases n,
{
    if n < 10 {
        seq![(48 + n) as u8]
    } else {
        spec_decimal(n / 10).push((48 + n % 10) as u8)
    }
}

/// A nibble as a lower-case ASCII hex digit.
pub open spec fn spec_hex_digit(n: u8) -> u8 {
    if n < 10 {
        (48 + n) as u8
    } else {
        (87 + n) as u8
    }
}

/// One byte of a JSON string body: quote and backslash get a backslash
/// escape, control bytes become `\u00XX` as JSON requires, every other
/// byte passes through unchanged.
pub open spec fn spec_escaped_byte(b: u8) -> Seq<u8> {
    if b == 34 || b == 92 {
        seq![92u8, b]
    } else if b < 32 {
        seq![92u8, 117u8, 48u8, 48u8, spec_hex_digit(b / 16), spec_hex_digit(b % 16)]
    } else {
        seq![b]
    }
}

/// A byte sequence escaped for use as a JSON string body.
pub open spec fn spec_escaped(s: Seq<u8>) -> Seq<u8>
    decreases s.len(),
{
    if s.len() == 0 {
        Seq::empty()
    } else {
        spec_escaped_byte(s[0]) + spec_escaped(s.skip(1))
    }
}

/// The bytes that spell `{"filename":"`.
pub open spec fn spec_json_prefix() -> Seq<u8> {
    seq![123u8, 34u8, 102u8, 105u8, 108u8, 101u8, 110u8, 97u8, 109u8, 101u8, 34u8, 58u8, 34u8]
}

/// The bytes that spell `","size":`.
pub open spec fn spec_json_infix() -> Seq<u8> {
    seq![34u8, 44u8, 34u8, 115u8, 105u8, 122u8, 101u8, 34u8, 58u8]
}

/// The sidecar record for a stored file, rendered as a single JSON object
/// `{"filename":"<escaped name>","size":<decimal>}` over the UTF-8 bytes of
/// the name.
pub open spec fn spec_metadata_json(name: Seq<u8>, size: u64) -> Seq<u8> {
    spec_json_prefix() + spec_escaped(name) + spec_json_infix() + spec_decimal(size as nat)
        + seq![125u8]
}

/// The descriptor written alongside each encrypted payload: the logical file
/// name and the plaintext byte count.  Informational only — never consulted
/// on the read path.
pub struct FileMetadata {
    pub filename: String,
    pub size: u64,
}

impl FileMetadata {
    pub fn new(filename: String, size: u64) -> (m: FileMetadata)
        ensures
            m.filename@ == filename@,
            m.size == size,
    {
        FileMetadata { filename, size }
    }

    /// The UTF-8 bytes of the stored name.
    pub open spec fn spec_name_bytes(self) -> Seq<u8> {
        vstd::utf8::encode_utf8(self.filename@)
    }

    /// Render the record as JSON bytes, escaping the name.
    pub fn to_json(&self) -> (r: Vec<u8>)
        ensures
            r@ == spec_metadata_json(self.spec_name_bytes(), self.size),
    {
        let mut out: Vec<u8> = Vec::new();
        let prefix: [u8; 13] = [123, 34, 102, 105, 108, 101, 110, 97, 109, 101, 34, 58, 34];
        out.extend_from_slice(prefix.as_slice());
        proof {
            assert(out@ =~= spec_json_prefix());
        }
        push_escaped(&mut out, self.filename.as_str().as_bytes());
        let infix: [u8; 9] = [34, 44, 34, 115, 105, 122, 101, 34, 58];
        out.extend_from_slice(infix.as_slice());
        push_decimal(&mut out, self.size);
        out.push(125);
        proof {
            assert(out@ =~= spec_metadata_json(self.spec_name_bytes(), self.size));
        }
        out
    }
}

/// A nibble as a lower-case ASCII hex digit.
fn hex_digit(n: u8) -> (r: u8)
    requires
        n < 16,
    ensures
        r == spec_hex_digit(n),
{
    if n < 10 {
        48 + n
    } else {
        87 + n
    }
}

/// Append the decimal rendering of `n`.
fn push_decimal(out: &mut Vec<u8>, n: u64)
    ensures
        final(out)@ == old(out)@ + spec_decimal(n as nat),
    decreases n,
{
    if n >= 10 {
        push_decimal(out, n / 10);
        out.push((n % 10) as u8 + 48);
    } else {
        out.push(n as u8 + 48);
    }
}

/// Append `name` with JSON string escaping.
fn push_escaped(out: &mut Vec<u8>, name: &[u8])
    ensures
        final(out)@ == old(out)@ + spec_escaped(name@),
{
    let ghost base = out@;
    let mut i: usize = 0;
    while i < name.len()
        invariant
            i <= name@.len(),
            out@ == base + spec_escaped(name@.take(i as int)),
        decreases name@.len() - i,
    {
        let b = *vstd::slice::slice_index_get(name, i);
        if b == 34 || b == 92 {
            out.push(92);
            out.push(b);
        } else if b < 32 {
            out.push(92);
            out.push(117);
            out.push(48);
            out.push(48);
            out.push(hex_digit(b / 16));
            out.push(hex_digit(b % 16));
        } else {
            out.push(b);
        }
        proof {
            lemma_escaped_push(name@.take(i as int), b);
            assert(name@.take(i + 1 as int) =~= name@.take(i as int).push(name@[i as int]));
        }
        i += 1;
    }
    proof {
        assert(name@.take(name@.len() as int) =~= name@);
    }
}

/// Escaping distributes over appending one byte at the end.
proof fn lemma_escaped_push(s: Seq<u8>, b: u8)
    ensures
        spec_escaped(s.push(b)) == spec_escaped(s) + spec_escaped_byte(b),
    decreases s.len(),
{
    if s.len() == 0 {
        assert(s.push(b)[0] == b);
        assert(s.push(b).skip(1) =~= Seq::<u8>::empty());
        assert(spec_escaped(s.push(b)) == spec_escaped_byte(b) + spec_escaped(
            Seq::<u8>::empty(),
        ));
        assert(spec_escaped(s.push(b)) =~= spec_escaped(s) + spec_escaped_byte(b));
    } else {
        assert(s.push(b)[0] == s[0]);
        assert(s.push(b).skip(1) =~= s.skip(1).push(b));
        lemma_escaped_push(s.skip(1), b);
        assert(spec_escaped(s.push(b)) =~= spec_escaped(s) + spec_escaped_byte(b));
    }
}

} // verus!
