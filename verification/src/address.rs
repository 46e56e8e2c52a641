//! Account addresses, hashes and their text.
use crate::keyed::MapKey;
use vstd::prelude::*;
use vstd::string::*;

verus! {

/// A 20-byte account address, read as one big-endian number.
#[derive(Clone, Copy, Debug, PartialEq, Eq, Structural)]
pub struct Address {
    /// The first four bytes.
    pub hi: u32,
    /// The next eight bytes.
    pub mid: u64,
    /// The last eight bytes.
    pub lo: u64,
}

/// A 32-byte hash, as four big-endian words with the most significant word first.
#[derive(Clone, Copy, Debug, PartialEq, Eq, Structural)]
pub struct B256 {
    pub w0: u64,
    pub w1: u64,
    pub w2: u64,
    pub w3: u64,
}

impl View for Address {
    type V = Address;

    open spec fn view(&self) -> Address {
        *self
    }
}

impl MapKey for Address {
    fn same_key(&self, other: &Self) -> (same: bool) {
        *self == *other
    }
}

/// The big-endian number that `bytes` spell.
pub open spec fn be_value(bytes: Seq<u8>) -> nat
    decreases bytes.len(),
{
    if bytes.len() == 0 {
        0
    } else {
        be_value(bytes.drop_last()) * 256 + bytes.last() as nat
    }
}

/// The number of values of `count` bytes.
spec fn byte_power(count: nat) -> nat
    decreases count,
{
    if count == 0 {
        1
    } else {
        byte_power((count - 1) as nat) * 256
    }
}

proof fn lemma_be_value_bound(bytes: Seq<u8>)
    ensures
        be_value(bytes) < byte_power(bytes.len()),
    decreases bytes.len(),
{
    if bytes.len() > 0 {
        lemma_be_value_bound(bytes.drop_last());
    }
}

proof fn lemma_byte_power(count: nat)
    requires
        count <= 8,
    ensures
        byte_power(count) <= 0x1_0000_0000_0000_0000,
        count <= 4 ==> byte_power(count) <= 0x1_0000_0000,
        count <= 7 ==> byte_power(count) <= 0x100_0000_0000_0000,
        count <= 3 ==> byte_power(count) <= 0x100_0000,
{
    reveal_with_fuel(byte_power, 9);
}

/// The big-endian number in `len` bytes from `from` on.
fn be_word(bytes: &[u8; 20], from: usize, len: usize) -> (word: u64)
    requires
        len <= 8,
        from + len <= 20,
    ensures
        word as nat == be_value(bytes@.subrange(from as int, from + len)),
        len == 4 ==> word < 0x1_0000_0000,
{
    let mut word: u64 = 0;
    let mut i: usize = 0;
    while i < len
        invariant
            i <= len <= 8,
            from + len <= 20,
            word as nat == be_value(bytes@.subrange(from as int, from + i)),
        decreases len - i,
    {
        proof {
            let head = bytes@.subrange(from as int, from + i);
            let next = bytes@.subrange(from as int, from + i + 1);
            lemma_be_value_bound(head);
            lemma_byte_power(i as nat);
            assert(next.drop_last() =~= head);
        }
        word = word * 256 + bytes[from + i] as u64;
        i += 1;
    }
    proof {
        lemma_be_value_bound(bytes@.subrange(from as int, from + len));
        lemma_byte_power(len as nat);
    }
    word
}

/// The hexadecimal digit `d`, lower case, for `d` below sixteen.
pub open spec fn hex_digit(d: nat) -> char {
    if d < 10 {
        (48 + d) as char
    } else {
        (87 + d) as char
    }
}

/// The number that one hexadecimal digit of either case stands for.
pub open spec fn hex_digit_value(c: char) -> Option<nat> {
    if '0' <= c <= '9' {
        Some((c as nat - 48) as nat)
    } else if 'a' <= c <= 'f' {
        Some((c as nat - 87) as nat)
    } else if 'A' <= c <= 'F' {
        Some((c as nat - 55) as nat)
    } else {
        None
    }
}

/// The last `count` hexadecimal digits of `n`.
pub open spec fn hex_digits(n: nat, count: nat) -> Seq<char>
    decreases count,
{
    if count == 0 {
        Seq::empty()
    } else {
        hex_digits(n / 16, (count - 1) as nat).push(hex_digit(n % 16))
    }
}

/// The number that `digits` spell, or `None` where one is no hexadecimal digit.
pub open spec fn hex_number(digits: Seq<char>) -> Option<nat>
    decreases digits.len(),
{
    if digits.len() == 0 {
        Some(0)
    } else {
        match (hex_number(digits.drop_last()), hex_digit_value(digits.last())) {
            (Some(head), Some(digit)) => Some(head * 16 + digit),
            _ => None,
        }
    }
}

/// The text behind its `0x` or `0X`, where it begins with one.
pub open spec fn without_prefix(text: Seq<char>) -> Seq<char> {
    if text.len() >= 2 && text[0] == '0' && (text[1] == 'x' || text[1] == 'X') {
        text.skip(2)
    } else {
        text
    }
}

/// The address that `text` spells: forty hexadecimal digits, with or without a prefix.
pub open spec fn parsed_address(text: Seq<char>) -> Option<nat> {
    let digits = without_prefix(text);
    if digits.len() == 40 {
        hex_number(digits)
    } else {
        None
    }
}

/// The hash that `text` spells: sixty-four hexadecimal digits, with or without a prefix.
pub open spec fn parsed_hash(text: Seq<char>) -> Option<nat> {
    let digits = without_prefix(text);
    if digits.len() == 64 {
        hex_number(digits)
    } else {
        None
    }
}

/// The bytes as hexadecimal digits, two for each.
pub open spec fn hex_bytes(bytes: Seq<u8>) -> Seq<char>
    decreases bytes.len(),
{
    if bytes.len() == 0 {
        Seq::empty()
    } else {
        hex_bytes(bytes.drop_last()) + hex_digits(bytes.last() as nat, 2)
    }
}

/// What `keccak256` of alloy returns: the hash of the bytes.
pub uninterp spec fn keccak256_of(bytes: Seq<u8>) -> B256;

/// The mixed-case digits of an address: a letter among the `digits` is a capital where the digit of
/// `hash` at its place is eight or more.
pub open spec fn capitalised(digits: Seq<char>, hash: Seq<char>) -> Seq<char> {
    Seq::new(
        digits.len(),
        |i: int|
            if 'a' <= digits[i] && '8' <= hash[i] {
                (digits[i] as nat - 32) as char
            } else {
                digits[i]
            },
    )
}

/// The checksummed text of an address: the hash that gives its capitals is that of its forty
/// lower-case digits.
pub open spec fn checksum_text(value: nat) -> Seq<char> {
    let digits = hex_digits(value, 40);
    let hash = keccak256_of(digits.map_values(|c: char| c as u8));
    seq!['0', 'x'] + capitalised(digits, hex_digits(hash.value(), 64))
}

/// Calls the `LowerHex` impl of alloy's `Address` with the `#` flag, which writes `0x` and forty
/// lower-case digits.
#[verifier::external_body]
fn alloy_lower_hex(address: Address) -> (text: String)
    ensures
        text@ == seq!['0', 'x'] + hex_digits(address.value(), 40),
{
    format!("{:#x}", alloy::primitives::Address::from_word(
        alloy::primitives::U256::from_limbs([address.lo, address.mid, address.hi as u64, 0]).into(),
    ))
}

/// Calls `to_checksum` of alloy's `Address` without a chain id: `0x` and forty digits, whose letters
/// are capitals by the Keccak-256 hash of the lower-case digits, the hash that `keccak256` gives.
#[verifier::external_body]
fn alloy_checksum(address: Address) -> (text: String)
    ensures
        text@ == checksum_text(address.value()),
{
    alloy::primitives::Address::from_word(
        alloy::primitives::U256::from_limbs([address.lo, address.mid, address.hi as u64, 0]).into(),
    ).to_checksum(None)
}

/// Calls the `FromStr` impl of alloy's `Address`: it reads forty hexadecimal digits of either
/// case, with or without `0x` or `0X` before them, and refuses every other text.
#[verifier::external_body]
fn alloy_parse_address(text: &str) -> (address: Option<Address>)
    ensures
        match address {
            Some(found) => parsed_address(text@) == Some(found.value()),
            None => parsed_address(text@) is None,
        },
{
    let parsed = text.parse::<alloy::primitives::Address>().ok();
    parsed.map(|address| alloy::primitives::U256::from_be_bytes(address.into_word().0)).map(
        |word| word.into_limbs(),
    ).map(|limbs| Address { hi: limbs[2] as u32, mid: limbs[1], lo: limbs[0] })
}

/// Calls the `FromStr` impl of alloy's `B256`: it reads sixty-four hexadecimal digits of either
/// case, with or without `0x` or `0X` before them, and refuses every other text.
#[verifier::external_body]
fn alloy_parse_hash(text: &str) -> (hash: Option<B256>)
    ensures
        match hash {
            Some(found) => parsed_hash(text@) == Some(found.value()),
            None => parsed_hash(text@) is None,
        },
{
    let parsed = text.parse::<alloy::primitives::B256>().ok();
    parsed.map(|hash| alloy::primitives::U256::from_be_bytes(hash.0).into_limbs()).map(
        |limbs| B256 { w0: limbs[3], w1: limbs[2], w2: limbs[1], w3: limbs[0] },
    )
}

/// Calls the `Display` impl of alloy's `B256`, which writes `0x` and sixty-four lower-case digits.
#[verifier::external_body]
fn alloy_hash_text(hash: B256) -> (text: String)
    ensures
        text@ == seq!['0', 'x'] + hex_digits(hash.value(), 64),
{
    alloy::primitives::B256::from(
        alloy::primitives::U256::from_limbs([hash.w3, hash.w2, hash.w1, hash.w0]),
    ).to_string()
}

/// Calls `keccak256` of alloy.
#[verifier::external_body]
fn alloy_keccak256(bytes: &[u8]) -> (hash: B256)
    ensures
        hash == keccak256_of(bytes@),
{
    let limbs = alloy::primitives::U256::from_be_bytes(
        alloy::primitives::keccak256(bytes).0,
    ).into_limbs();
    B256 { w0: limbs[3], w1: limbs[2], w2: limbs[1], w3: limbs[0] }
}

/// Calls `hex::encode_prefixed` of alloy: `0x` and two lower-case digits for each byte.
#[verifier::external_body]
fn alloy_hex_encode_prefixed(bytes: &[u8]) -> (text: String)
    ensures
        text@ == seq!['0', 'x'] + hex_bytes(bytes@),
{
    alloy::hex::encode_prefixed(bytes)
}

/// Calls `hex::encode` of alloy: two lower-case digits for each byte.
#[verifier::external_body]
fn alloy_hex_encode(bytes: &[u8]) -> (text: String)
    ensures
        text@ == hex_bytes(bytes@),
{
    alloy::hex::encode(bytes)
}

/// The hash of `bytes`.
pub fn keccak256(bytes: &[u8]) -> (hash: B256)
    ensures
        hash == keccak256_of(bytes@),
{
    alloy_keccak256(bytes)
}

/// `0x` and two lower-case digits for each byte.
pub fn hex_encode_prefixed(bytes: &[u8]) -> (text: String)
    ensures
        text@ == seq!['0', 'x'] + hex_bytes(bytes@),
{
    alloy_hex_encode_prefixed(bytes)
}

/// Two lower-case digits for each byte.
pub fn hex_encode(bytes: &[u8]) -> (text: String)
    ensures
        text@ == hex_bytes(bytes@),
{
    alloy_hex_encode(bytes)
}

impl B256 {
    /// The number that the thirty-two bytes spell.
    pub open spec fn value(self) -> nat {
        self.w0 as nat * 0x1_0000_0000_0000_0000_0000_0000_0000_0000_0000_0000_0000_0000nat
            + self.w1 as nat * 0x1_0000_0000_0000_0000_0000_0000_0000_0000nat + self.w2 as nat
            * 0x1_0000_0000_0000_0000nat + self.w3 as nat
    }

    /// The hash that `text` spells.
    pub fn parse(text: &str) -> (hash: Option<B256>)
        ensures
            match hash {
                Some(found) => parsed_hash(text@) == Some(found.value()),
                None => parsed_hash(text@) is None,
            },
    {
        alloy_parse_hash(text)
    }

    /// The text with `0x` and sixty-four lower-case digits.
    pub fn to_text(self) -> (text: String)
        ensures
            text@ == seq!['0', 'x'] + hex_digits(self.value(), 64),
    {
        alloy_hash_text(self)
    }
}

impl Address {
    /// The number that the twenty bytes spell.
    pub open spec fn value(self) -> nat {
        self.hi as nat * 0x1_0000_0000_0000_0000_0000_0000_0000_0000nat + self.mid as nat
            * 0x1_0000_0000_0000_0000nat + self.lo as nat
    }

    /// The zero address.
    pub fn zero() -> (address: Address)
        ensures
            address.value() == 0,
            address == (Address { hi: 0, mid: 0, lo: 0 }),
    {
        Address { hi: 0, mid: 0, lo: 0 }
    }

    /// The address with these bytes.
    pub fn from_bytes(bytes: [u8; 20]) -> (address: Address)
        ensures
            address.hi as nat == be_value(bytes@.subrange(0, 4)),
            address.mid as nat == be_value(bytes@.subrange(4, 12)),
            address.lo as nat == be_value(bytes@.subrange(12, 20)),
    {
        Address {
            hi: be_word(&bytes, 0, 4) as u32,
            mid: be_word(&bytes, 4, 8),
            lo: be_word(&bytes, 12, 8),
        }
    }

    /// Whether this address comes before `other` in numeric order, which is the order of the bytes.
    pub fn less_than(self, other: Address) -> (less: bool)
        ensures
            less == (self.value() < other.value()),
    {
        if self.hi != other.hi {
            self.hi < other.hi
        } else if self.mid != other.mid {
            self.mid < other.mid
        } else {
            self.lo < other.lo
        }
    }

    /// The text with `0x` and forty lower-case digits.
    pub fn to_lower_hex(self) -> (text: String)
        ensures
            text@ == seq!['0', 'x'] + hex_digits(self.value(), 40),
    {
        alloy_lower_hex(self)
    }

    /// The checksummed text.
    pub fn to_checksum(self) -> (text: String)
        ensures
            text@ == checksum_text(self.value()),
    {
        alloy_checksum(self)
    }

    /// The address that `text` spells.
    pub fn parse(text: &str) -> (address: Option<Address>)
        ensures
            match address {
                Some(found) => parsed_address(text@) == Some(found.value()),
                None => parsed_address(text@) is None,
            },
    {
        alloy_parse_address(text)
    }
}

/// Two addresses are the same exactly when their bytes spell the same number.
pub proof fn address_equal_by_value(a: Address, b: Address)
    ensures
        (a.value() == b.value()) <==> (a == b),
{
}

proof fn lemma_hex_round_trip(n: nat, count: nat)
    ensures
        hex_digits(n, count).len() == count,
        n < hex_power(count) ==> hex_number(hex_digits(n, count)) == Some(n),
    decreases count,
{
    if count > 0 {
        lemma_hex_round_trip(n / 16, (count - 1) as nat);
        let digits = hex_digits(n, count);
        assert(digits.drop_last() =~= hex_digits(n / 16, (count - 1) as nat));
        assert(hex_digit_value(hex_digit(n % 16)) == Some(n % 16));
    }
}

spec fn hex_power(count: nat) -> nat
    decreases count,
{
    if count == 0 {
        1
    } else {
        hex_power((count - 1) as nat) * 16
    }
}

/// Reading the text of an address gives the address back.
pub proof fn address_text_reads_back(address: Address)
    ensures
        parsed_address(seq!['0', 'x'] + hex_digits(address.value(), 40)) == Some(address.value()),
{
    let digits = hex_digits(address.value(), 40);
    lemma_hex_round_trip(address.value(), 40);
    assert(hex_power(40) == 0x1_0000_0000_0000_0000_0000_0000_0000_0000_0000_0000nat) by {
        reveal_with_fuel(hex_power, 41);
    }
    let text = seq!['0', 'x'] + digits;
    assert(text.skip(2) =~= digits);
}

proof fn lemma_hex_digits_of(n: nat, count: nat, i: int)
    requires
        0 <= i < count,
    ensures
        '0' <= hex_digits(n, count)[i] <= '9' || 'a' <= hex_digits(n, count)[i] <= 'f',
    decreases count,
{
    lemma_hex_round_trip(n / 16, (count - 1) as nat);
    if i < count - 1 {
        lemma_hex_digits_of(n / 16, (count - 1) as nat, i);
    }
}

proof fn lemma_capitals_spell_the_same(digits: Seq<char>, hash: Seq<char>)
    requires
        forall|i: int|
            0 <= i < digits.len() ==> '0' <= #[trigger] digits[i] <= '9' || 'a' <= digits[i] <= 'f',
    ensures
        hex_number(capitalised(digits, hash)) == hex_number(digits),
    decreases digits.len(),
{
    if digits.len() > 0 {
        let text = capitalised(digits, hash);
        lemma_capitals_spell_the_same(digits.drop_last(), hash);
        assert(text.drop_last() =~= capitalised(digits.drop_last(), hash));
        assert(hex_digit_value(text.last()) == hex_digit_value(digits.last()));
    }
}

/// Reading the checksummed text of an address gives the address back.
pub proof fn checksum_text_reads_back(address: Address)
    ensures
        parsed_address(checksum_text(address.value())) == Some(address.value()),
{
    let digits = hex_digits(address.value(), 40);
    let hash = hex_digits(keccak256_of(digits.map_values(|c: char| c as u8)).value(), 64);
    lemma_hex_round_trip(address.value(), 40);
    address_text_reads_back(address);
    assert((seq!['0', 'x'] + digits).skip(2) =~= digits);
    assert forall|i: int| 0 <= i < digits.len() implies '0' <= #[trigger] digits[i] <= '9' || 'a'
        <= digits[i] <= 'f' by {
        lemma_hex_digits_of(address.value(), 40, i);
    }
    lemma_capitals_spell_the_same(digits, hash);
    assert(checksum_text(address.value()).skip(2) =~= capitalised(digits, hash));
}

/// The eight bytes of `word`, most significant first.
pub open spec fn be_bytes(word: u64) -> Seq<u8> {
    seq![
        (word / 0x100_0000_0000_0000) as u8,
        ((word / 0x1_0000_0000_0000) % 256) as u8,
        ((word / 0x100_0000_0000) % 256) as u8,
        ((word / 0x1_0000_0000) % 256) as u8,
        ((word / 0x100_0000) % 256) as u8,
        ((word / 0x1_0000) % 256) as u8,
        ((word / 0x100) % 256) as u8,
        (word % 256) as u8,
    ]
}

/// Appends the eight bytes of `word`, most significant first.
pub fn push_be_word(bytes: &mut Vec<u8>, word: u64)
    ensures
        final(bytes)@ == old(bytes)@ + be_bytes(word),
{
    bytes.push((word / 0x100_0000_0000_0000) as u8);
    bytes.push(((word / 0x1_0000_0000_0000) % 256) as u8);
    bytes.push(((word / 0x100_0000_0000) % 256) as u8);
    bytes.push(((word / 0x1_0000_0000) % 256) as u8);
    bytes.push(((word / 0x100_0000) % 256) as u8);
    bytes.push(((word / 0x1_0000) % 256) as u8);
    bytes.push(((word / 0x100) % 256) as u8);
    bytes.push((word % 256) as u8);
    assert(bytes@ =~= old(bytes)@ + be_bytes(word));
}

proof fn lemma_be_value_push(bytes: Seq<u8>, byte: u8)
    ensures
        be_value(bytes.push(byte)) == be_value(bytes) * 256 + byte,
{
    assert(bytes.push(byte).drop_last() =~= bytes);
}

/// The bytes of a word are its own, the greatest first.
pub proof fn words_read_back_from_their_bytes(word: u64)
    ensures
        be_bytes(word).len() == 8,
        be_value(be_bytes(word)) == word,
{
    let bytes = be_bytes(word);
    let none = Seq::<u8>::empty();
    assert(be_value(none) == 0);
    let one = none.push(bytes[0]);
    lemma_be_value_push(none, bytes[0]);
    assert(be_value(one) == word / 0x100_0000_0000_0000);
    let two = one.push(bytes[1]);
    lemma_be_value_push(one, bytes[1]);
    assert(be_value(two) == word / 0x1_0000_0000_0000);
    let three = two.push(bytes[2]);
    lemma_be_value_push(two, bytes[2]);
    assert(be_value(three) == word / 0x100_0000_0000);
    let four = three.push(bytes[3]);
    lemma_be_value_push(three, bytes[3]);
    assert(be_value(four) == word / 0x1_0000_0000);
    let five = four.push(bytes[4]);
    lemma_be_value_push(four, bytes[4]);
    assert(be_value(five) == word / 0x100_0000);
    let six = five.push(bytes[5]);
    lemma_be_value_push(five, bytes[5]);
    assert(be_value(six) == word / 0x1_0000);
    let seven = six.push(bytes[6]);
    lemma_be_value_push(six, bytes[6]);
    assert(be_value(seven) == word / 0x100);
    let eight = seven.push(bytes[7]);
    lemma_be_value_push(seven, bytes[7]);
    assert(bytes =~= eight);
}

/// A text of bytes has two digits for each, in their order.
pub proof fn bytes_are_written_in_order(bytes: Seq<u8>, byte: u8)
    ensures
        hex_bytes(Seq::empty()).len() == 0,
        hex_bytes(bytes.push(byte)) == hex_bytes(bytes) + seq![
            hex_digit(byte as nat / 16),
            hex_digit(byte as nat % 16),
        ],
{
    assert(bytes.push(byte).drop_last() =~= bytes);
    reveal_with_fuel(hex_digits, 3);
    assert(hex_digits(byte as nat, 2) =~= seq![
        hex_digit(byte as nat / 16),
        hex_digit(byte as nat % 16),
    ]);
}

/// A digit reads back from how it is written, in either case.
pub proof fn digits_read_back(d: nat)
    requires
        d < 16,
    ensures
        hex_digit_value(hex_digit(d)) == Some(d),
        d < 10 ==> hex_digit(d) as nat == '0' as nat + d,
        d >= 10 ==> hex_digit(d) as nat == 'a' as nat + (d - 10),
        d >= 10 ==> hex_digit_value((hex_digit(d) as nat - 32) as char) == Some(d),
{
}

/// A hash reads back from how it is written.
pub proof fn hash_text_reads_back(hash: B256)
    ensures
        parsed_hash(seq!['0', 'x'] + hex_digits(hash.value(), 64)) == Some(hash.value()),
{
    let digits = hex_digits(hash.value(), 64);
    lemma_hex_round_trip(hash.value(), 64);
    assert((seq!['0', 'x'] + digits).skip(2) =~= digits);
    reveal_with_fuel(hex_power, 65);
    assert(hex_power(64)
        == 0x1_0000_0000_0000_0000_0000_0000_0000_0000_0000_0000_0000_0000_0000_0000_0000_0000nat);
}

/// A text is an address only where it has forty digits, and a hash only where it has sixty-four.
pub proof fn texts_of_other_lengths_are_not_read(text: Seq<char>)
    ensures
        without_prefix(text).len() != 40 ==> parsed_address(text) is None,
        without_prefix(text).len() != 64 ==> parsed_hash(text) is None,
        without_prefix(text).len() == 40 ==> parsed_address(text) == hex_number(
            without_prefix(text),
        ),
        without_prefix(text).len() == 64 ==> parsed_hash(text) == hex_number(without_prefix(text)),
        without_prefix(seq!['0', 'x'] + text) == text,
        without_prefix(seq!['0', 'X'] + text) == text,
        !(text.len() >= 2 && text[0] == '0') ==> without_prefix(text) == text,
{
    assert((seq!['0', 'x'] + text).skip(2) =~= text);
    assert((seq!['0', 'X'] + text).skip(2) =~= text);
}

/// Numbers are read from the left, sixteen for one; a text with anything else in it is not read.
pub proof fn numbers_are_read_from_the_left(digits: Seq<char>, digit: char)
    ensures
        hex_number(Seq::empty()) == Some(0nat),
        hex_number(digits) matches Some(head) ==> (hex_digit_value(digit) matches Some(value)
            ==> hex_number(digits.push(digit)) == Some(16 * head + value)),
        hex_digit_value(digit) is None ==> hex_number(digits.push(digit)) is None,
        hex_number(digits) is None ==> hex_number(digits.push(digit)) is None,
{
    assert(digits.push(digit).drop_last() =~= digits);
}

/// A letter is a capital exactly where the digit of the hash at its place is at least eight; figures
/// stay as they are.
pub proof fn capitals_follow_the_hash(digits: Seq<char>, hash: Seq<char>, at: int)
    requires
        0 <= at < digits.len(),
    ensures
        capitalised(digits, hash).len() == digits.len(),
        digits[at] < 'a' ==> capitalised(digits, hash)[at] == digits[at],
        hash[at] < '8' ==> capitalised(digits, hash)[at] == digits[at],
        'a' <= digits[at] <= 'f' && '8' <= hash[at] ==> capitalised(digits, hash)[at] as nat + 32
            == digits[at] as nat,
{
}

/// Addresses are ordered by their high part, then by their middle, then by their low one.
pub proof fn addresses_are_ordered_from_the_high_part(a: Address, b: Address)
    ensures
        a.value() < b.value() <==> {
            ||| a.hi < b.hi
            ||| a.hi == b.hi && a.mid < b.mid
            ||| a.hi == b.hi && a.mid == b.mid && a.lo < b.lo
        },
{
}

} // verus!
