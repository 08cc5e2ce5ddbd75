//! Catalog records and the decoding of one delimited row into a record.
use vstd::prelude::*;
use vstd::utf8::encode_utf8;

verus! {

/// Number of fields in one catalog row.
pub const ROW_FIELDS: usize = 11;

/// One catalog entry, as read from one row of the source.
#[derive(Clone, Debug)]
pub struct Book {
    pub id: u64,
    pub title: String,
    pub author: String,
    pub publisher: String,
    pub extension: String,
    pub filesize: u64,
    pub language: String,
    pub year: u64,
    pub pages: u64,
    pub isbn: String,
    pub ipfs_cid: String,
}

/// Why a row could not be turned into a record.
#[derive(Clone, Copy, Debug, PartialEq, Eq, Structural)]
pub enum DecodeError {
    /// The row had fewer than eleven fields.
    TooFewFields { found: usize },
    /// The field at this position should hold an unsigned integer and does not.
    BadNumber { column: usize },
}

/// The value of byte `b` as a digit in base `radix` (10 or 16; hex digits
/// in either case), or `radix` itself when `b` is no such digit.
pub open spec fn digit_of(b: u8, radix: nat) -> nat {
    if 48 <= b <= 57 {
        (b - 48) as nat
    } else if radix == 16 && 97 <= b <= 102 {
        (b - 87) as nat
    } else if radix == 16 && 65 <= b <= 70 {
        (b - 55) as nat
    } else {
        radix
    }
}

pub open spec fn all_digits(s: Seq<u8>, radix: nat) -> bool {
    forall|i: int| 0 <= i < s.len() ==> #[trigger] digit_of(s[i], radix) < radix
}

/// The value of a string of digits in base `radix`.
pub open spec fn digits_value(s: Seq<u8>, radix: nat) -> nat
    decreases s.len(),
{
    if s.len() == 0 {
        0
    } else {
        digits_value(s.drop_last(), radix) * radix + digit_of(s.last(), radix)
    }
}

/// The digits of a number: the bytes after an optional leading `+`.
pub open spec fn number_digits(s: Seq<u8>) -> Seq<u8> {
    if s.len() > 0 && s[0] == 43 { s.skip(1) } else { s }
}

/// An unsigned number in base `radix`: an optional `+`, then one or more
/// digits whose value fits in 64 bits.
pub open spec fn spec_parse_radix(s: Seq<u8>, radix: nat) -> Option<u64> {
    let d = number_digits(s);
    if d.len() > 0 && all_digits(d, radix) && digits_value(d, radix) <= u64::MAX as nat {
        Some(digits_value(d, radix) as u64)
    } else {
        None
    }
}

/// Whether `s` starts with the hexadecimal prefix `0x`.
pub open spec fn has_hex_prefix(s: Seq<u8>) -> bool {
    s.len() >= 2 && s[0] == 48 && s[1] == 120
}

/// An unsigned integer field: hexadecimal after a leading `0x`, else decimal.
pub open spec fn spec_parse_u64(s: Seq<u8>) -> Option<u64> {
    if has_hex_prefix(s) {
        spec_parse_radix(s.skip(2), 16)
    } else {
        spec_parse_radix(s, 10)
    }
}

/// The UTF-8 bytes of a field.
pub open spec fn field_bytes(s: String) -> Seq<u8> {
    encode_utf8(s@)
}

pub open spec fn field_number(fields: Seq<String>, i: int) -> Option<u64> {
    spec_parse_u64(field_bytes(fields[i]))
}

/// The first integer column, if any, whose field is not a valid number.
pub open spec fn first_bad_column(fields: Seq<String>) -> Option<int> {
    if field_number(fields, 0) is None {
        Some(0)
    } else if field_number(fields, 5) is None {
        Some(5)
    } else if field_number(fields, 7) is None {
        Some(7)
    } else if field_number(fields, 8) is None {
        Some(8)
    } else {
        None
    }
}

/// `b` holds exactly the values of the first eleven fields of a
/// well-formed row `fields`; later fields are not read.
pub open spec fn book_of_fields(b: Book, fields: Seq<String>) -> bool {
    &&& fields.len() >= ROW_FIELDS
    &&& field_number(fields, 0) == Some(b.id)
    &&& b.title@ == fields[1]@
    &&& b.author@ == fields[2]@
    &&& b.publisher@ == fields[3]@
    &&& b.extension@ == fields[4]@
    &&& field_number(fields, 5) == Some(b.filesize)
    &&& b.language@ == fields[6]@
    &&& field_number(fields, 7) == Some(b.year)
    &&& field_number(fields, 8) == Some(b.pages)
    &&& b.isbn@ == fields[9]@
    &&& b.ipfs_cid@ == fields[10]@
}

/// Whether a row decodes into a record: it has at least eleven fields and
/// each of its integer fields parses.
pub open spec fn row_decodes(fields: Seq<String>) -> bool {
    fields.len() >= ROW_FIELDS && first_bad_column(fields) is None
}

proof fn lemma_digits_value_monotone(s: Seq<u8>, radix: nat, k: int)
    requires
        0 <= k <= s.len(),
        radix >= 1,
    ensures
        digits_value(s.take(k), radix) <= digits_value(s, radix),
    decreases s.len() - k,
{
    if k < s.len() {
        lemma_digits_value_monotone(s, radix, k + 1);
        assert(s.take(k + 1).drop_last() =~= s.take(k));
        assert(digits_value(s.take(k), radix) <= digits_value(s.take(k), radix) * radix + digit_of(s.take(k + 1).last(), radix)) by (nonlinear_arith)
            requires
                radix >= 1,
        ;
    } else {
        assert(s.take(k) =~= s);
    }
}

fn digit_value(b: u8, radix: u64) -> (r: u64)
    requires
        radix == 10 || radix == 16,
    ensures
        r as nat == digit_of(b, radix as nat),
{
    if 48 <= b && b <= 57 {
        (b - 48) as u64
    } else if radix == 16 && 97 <= b && b <= 102 {
        (b - 87) as u64
    } else if radix == 16 && 65 <= b && b <= 70 {
        (b - 55) as u64
    } else {
        radix
    }
}

/// Parses an unsigned number in base `radix` from `bytes[from..]`.
fn parse_radix(bytes: &[u8], from: usize, radix: u64) -> (r: Option<u64>)
    requires
        from <= bytes@.len(),
        radix == 10 || radix == 16,
    ensures
        r == spec_parse_radix(bytes@.skip(from as int), radix as nat),
{
    let ghost all = bytes@.skip(from as int);
    let len = bytes.len();
    let start: usize = if from < len && bytes[from] == 43 { from + 1 } else { from };
    let ghost d = number_digits(all);
    let ghost rad = radix as nat;
    assert(d =~= bytes@.skip(start as int));
    if start >= len {
        return None;
    }
    let mut acc: u64 = 0;
    let mut i: usize = start;
    while i < len
        invariant
            from <= start <= i <= len,
            len == bytes@.len(),
            radix == 10 || radix == 16,
            rad == radix as nat,
            all == bytes@.skip(from as int),
            d =~= bytes@.skip(start as int),
            d == number_digits(all),
            all_digits(d.take(i - start), rad),
            acc as nat == digits_value(d.take(i - start), rad),
        decreases len - i,
    {
        let b = bytes[i];
        let ghost k = i - start;
        assert(d.take(k + 1).drop_last() =~= d.take(k));
        assert(d[k] == b);
        let dig = digit_value(b, radix);
        if dig >= radix {
            assert(!(digit_of(d[k], rad) < rad));
            return None;
        }
        if acc > (u64::MAX - dig) / radix {
            proof {
                assert((acc as nat) * rad + (dig as nat) > u64::MAX as nat) by (nonlinear_arith)
                    requires
                        acc as int > (u64::MAX as int - dig as int) / (radix as int),
                        dig < radix,
                        radix == 10 || radix == 16,
                        rad == radix as nat,
                ;
                assert(digits_value(d.take(k + 1), rad) == digits_value(d.take(k), rad) * rad + dig as nat);
                lemma_digits_value_monotone(d, rad, k + 1);
            }
            return None;
        }
        proof {
            assert((acc as nat) * rad + (dig as nat) <= u64::MAX as nat) by (nonlinear_arith)
                requires
                    acc as int <= (u64::MAX as int - dig as int) / (radix as int),
                    dig < radix,
                    radix == 10 || radix == 16,
                    rad == radix as nat,
            ;
        }
        acc = acc * radix + dig;
        i = i + 1;
        assert forall|j: int| 0 <= j < d.take(i - start).len() implies #[trigger] digit_of(d.take(i - start)[j], rad) < rad by {
            if j < k {
                assert(d.take(i - start)[j] == d.take(k)[j]);
            }
        }
    }
    assert(d.take(len - start) =~= d);
    Some(acc)
}

/// Parses an unsigned 64-bit integer from a field: hexadecimal digits after
/// a leading `0x`, else decimal digits, either after an optional `+`.
pub fn parse_u64(s: &str) -> (r: Option<u64>)
    ensures
        r == spec_parse_u64(encode_utf8(s@)),
{
    let bytes = s.as_bytes();
    let ghost all = bytes@;
    if bytes.len() >= 2 && bytes[0] == 48 && bytes[1] == 120 {
        parse_radix(bytes, 2, 16)
    } else {
        assert(all.skip(0) =~= all);
        parse_radix(bytes, 0, 10)
    }
}

fn number_field(fields: &Vec<String>, i: usize) -> (r: Option<u64>)
    requires
        i < fields@.len(),
    ensures
        r == field_number(fields@, i as int),
{
    parse_u64(fields[i].as_str())
}

/// Decodes one row of the source into a record.
///
/// The row must have at least eleven fields, in the order identifier, title,
/// author, publisher, extension, file size, language, year, pages, ISBN and
/// content identifier; the four integer fields must each parse as an
/// unsigned 64-bit number. Text fields are taken as they stand, and any
/// fields after the eleventh are ignored.
pub fn decode_row(fields: &Vec<String>) -> (r: Result<Book, DecodeError>)
    ensures
        r matches Ok(b) ==> row_decodes(fields@) && book_of_fields(b, fields@),
        r matches Err(DecodeError::TooFewFields { found }) ==> fields@.len() < ROW_FIELDS
            && found == fields@.len(),
        r matches Err(DecodeError::BadNumber { column }) ==> fields@.len() >= ROW_FIELDS
            && first_bad_column(fields@) == Some(column as int),
        r is Ok <==> row_decodes(fields@),
{
    if fields.len() < ROW_FIELDS {
        return Err(DecodeError::TooFewFields { found: fields.len() });
    }
    let id = match number_field(fields, 0) {
        Some(v) => v,
        None => return Err(DecodeError::BadNumber { column: 0 }),
    };
    let filesize = match number_field(fields, 5) {
        Some(v) => v,
        None => return Err(DecodeError::BadNumber { column: 5 }),
    };
    let year = match number_field(fields, 7) {
        Some(v) => v,
        None => return Err(DecodeError::BadNumber { column: 7 }),
    };
    let pages = match number_field(fields, 8) {
        Some(v) => v,
        None => return Err(DecodeError::BadNumber { column: 8 }),
    };
    Ok(Book {
        id,
        title: fields[1].clone(),
        author: fields[2].clone(),
        publisher: fields[3].clone(),
        extension: fields[4].clone(),
        filesize,
        language: fields[6].clone(),
        year,
        pages,
        isbn: fields[9].clone(),
        ipfs_cid: fields[10].clone(),
    })
}

/// Decoding depends on the text of the fields alone: two rows with the same
/// text are both accepted or both rejected, and for the same reason.
pub proof fn lemma_same_text_same_outcome(f: Seq<String>, g: Seq<String>)
    requires
        f.len() == g.len(),
        forall|i: int| 0 <= i < f.len() ==> (#[trigger] f[i])@ == g[i]@,
    ensures
        row_decodes(f) == row_decodes(g),
        f.len() >= ROW_FIELDS ==> first_bad_column(f) == first_bad_column(g),
{
    if f.len() >= ROW_FIELDS {
        assert(f[0]@ == g[0]@ && f[5]@ == g[5]@ && f[7]@ == g[7]@ && f[8]@ == g[8]@);
    }
}

} // verus!
