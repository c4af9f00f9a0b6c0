//! Items and where they come from.

use vstd::prelude::*;

verus! {

/// One entry of the list. The id is stable and serves as reconciliation key;
/// the payload never changes once the item exists.
#[derive(Clone, Debug, PartialEq, Eq)]
pub struct Item {
    pub id: u128,
    pub payload: String,
}

/// The text that `lipsum::lipsum_words` returns for `n` words. The function
/// samples a fixed Markov chain with a generator of fixed seed, so the text
/// depends on `n` alone.
pub uninterp spec fn lipsum_words_text(n: nat) -> Seq<char>;

/// The number of words in the payload that the random byte `r` selects:
/// between 5 and 49.
pub open spec fn word_count_of(r: u8) -> nat {
    (r % 45 + 5) as nat
}

/// `id` carries the version and variant marks of a random (version 4) UUID.
pub open spec fn is_random_id(id: u128) -> bool {
    &&& (id >> 76u128) & 0xfu128 == 4u128
    &&& (id >> 62u128) & 0x3u128 == 2u128
}

/// `item` is a message as the source makes them: a random id, and filler text
/// of a length that some random byte selects.
pub open spec fn is_message(item: Item) -> bool {
    &&& is_random_id(item.id)
    &&& exists|r: u8| item.payload@ == lipsum_words_text(#[trigger] word_count_of(r))
}

/// Every item of `batch` is a message, and there are `count` of them.
pub open spec fn is_message_batch(batch: Seq<Item>, count: nat) -> bool {
    &&& batch.len() == count
    &&& forall|i: int| 0 <= i < batch.len() ==> is_message(#[trigger] batch[i])
}

/// `uuid::Uuid::new_v4`, as the 128-bit value that `Uuid::as_u128` gives.
/// Trusted: the bits are random but for the version nibble, which is 4, and the
/// two variant bits, which are `10`. The call panics if the operating system
/// has no random bytes to give.
#[verifier::external_body]
fn random_id() -> (id: u128)
    ensures
        is_random_id(id),
{
    uuid::Uuid::new_v4().as_u128()
}

/// `rand::random::<u8>`. Trusted; nothing is known of the byte. The call
/// panics if the thread's generator cannot be seeded.
#[verifier::external_body]
fn random_byte() -> (r: u8) {
    rand::random::<u8>()
}

/// `lipsum::lipsum_words`. Trusted: the text is the one that the crate
/// generates for `n` words, the same on every call.
#[verifier::external_body]
fn lorem_words(n: usize) -> (text: String)
    ensures
        text@ == lipsum_words_text(n as nat),
{
    lipsum::lipsum_words(n)
}

/// The number of words that the random byte `r` selects.
pub fn word_count(r: u8) -> (n: usize)
    ensures
        n == word_count_of(r),
        5 <= n <= 49,
{
    (r % 45) as usize + 5
}

/// The message with the given id whose length the byte `r` selects.
pub fn message_with(id: u128, r: u8) -> (item: Item)
    ensures
        item.id == id,
        item.payload@ == lipsum_words_text(word_count_of(r)),
{
    Item { id, payload: lorem_words(word_count(r)) }
}

/// Makes a new message: a fresh random id and filler text of random length.
pub fn new_message() -> (item: Item)
    ensures
        is_message(item),
{
    let id = random_id();
    let r = random_byte();
    message_with(id, r)
}

/// Makes `count` new messages, in the order in which they were made.
pub fn generate_batch(count: usize) -> (batch: Vec<Item>)
    ensures
        is_message_batch(batch@, count as nat),
{
    let mut batch: Vec<Item> = Vec::new();
    let mut made: usize = 0;
    while made < count
        invariant
            made <= count,
            is_message_batch(batch@, made as nat),
        decreases count - made,
    {
        batch.push(new_message());
        made = made + 1;
    }
    batch
}

} // verus!
