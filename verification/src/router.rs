//! What the HTTP surface decides: which requests are taken, what is asked of
//! the facade, and what a result is answered with.

use crate::domain::address::{is_canonical_address, Address};
use crate::error::{fault_debug_text, BlockchainServiceError, ServiceFault};
use crate::services::blockchain_service::BlockchainService;
use crate::services::ethereum::texts;
use std::sync::Arc;
use vstd::prelude::*;
use vstd::string::*;

verus! {

/// The status of a request that was answered in full.
pub const STATUS_OK: u16 = 200;

/// The status of a request whose shape is wrong.
pub const STATUS_BAD_REQUEST: u16 = 400;

/// The status of a request that took too long.
pub const STATUS_REQUEST_TIMEOUT: u16 = 408;

/// The status of a request that the chain interaction could not serve.
pub const STATUS_UNPROCESSABLE_ENTITY: u16 = 422;

/// The status of any other failure.
pub const STATUS_INTERNAL_SERVER_ERROR: u16 = 500;

/// What the handlers share: the facade.
pub struct AppServiceLayer {
    pub blockchain_service: Arc<BlockchainService>,
}

impl AppServiceLayer {
    /// The shared state around a facade.
    pub fn new(blockchain_service: BlockchainService) -> (layer: AppServiceLayer)
        ensures
            *layer.blockchain_service == blockchain_service,
    {
        AppServiceLayer { blockchain_service: Arc::new(blockchain_service) }
    }
}

/// A request that is not served: the status, and the two texts of the body.
#[derive(Debug, Clone, PartialEq, Eq)]
pub struct Refusal {
    pub status: u16,
    pub error: String,
    pub message: String,
}

/// A `Refusal` with its texts as sequences of characters.
pub struct RefusalFacts {
    pub status: int,
    pub error: Seq<char>,
    pub message: Seq<char>,
}

impl View for Refusal {
    type V = RefusalFacts;

    open spec fn view(&self) -> RefusalFacts {
        RefusalFacts { status: self.status as int, error: self.error@, message: self.message@ }
    }
}

/// The refusal of a token address that is empty or no address.
pub open spec fn bad_token_address() -> RefusalFacts {
    RefusalFacts {
        status: STATUS_BAD_REQUEST as int,
        error: "Invalid token address"@,
        message: "empty string"@,
    }
}

/// The refusal of a request that the facade failed on: the message is the
/// failure in its `Debug` form, which begins with the name of its kind.
pub open spec fn unprocessable(fault: ServiceFault) -> RefusalFacts {
    RefusalFacts {
        status: STATUS_UNPROCESSABLE_ENTITY as int,
        error: "Blockchain service error"@,
        message: fault_debug_text(fault),
    }
}

/// Whether a character has the Unicode property White_Space: the blank, the
/// controls from tab to carriage return, the next-line control, and the
/// spaces and separators beyond ASCII.
pub open spec fn is_white_space(c: char) -> bool {
    ||| '\u{0009}' <= c && c <= '\u{000D}'
    ||| c == '\u{0020}'
    ||| c == '\u{0085}'
    ||| c == '\u{00A0}'
    ||| c == '\u{1680}'
    ||| '\u{2000}' <= c && c <= '\u{200A}'
    ||| c == '\u{2028}'
    ||| c == '\u{2029}'
    ||| c == '\u{202F}'
    ||| c == '\u{205F}'
    ||| c == '\u{3000}'
}

/// Whether a character is white space.
fn white_space(c: char) -> (b: bool)
    ensures
        b == is_white_space(c),
{
    ('\u{0009}' <= c && c <= '\u{000D}') || c == '\u{0020}' || c == '\u{0085}' || c == '\u{00A0}'
        || c == '\u{1680}' || ('\u{2000}' <= c && c <= '\u{200A}') || c == '\u{2028}' || c
        == '\u{2029}' || c == '\u{202F}' || c == '\u{205F}' || c == '\u{3000}'
}

/// The pieces of a text between its commas. Read from the left, a comma opens
/// a new piece and any other character extends the last one: a text without
/// a comma is one piece, and between two commas side by side lies an empty
/// one.
pub open spec fn split_commas(text: Seq<char>) -> Seq<Seq<char>>
    decreases text.len(),
{
    if text.len() == 0 {
        seq![Seq::empty()]
    } else {
        let front = split_commas(text.drop_last());
        if text.last() == ',' {
            front.push(Seq::empty())
        } else {
            front.drop_last().push(front.last().push(text.last()))
        }
    }
}

/// A text without the white space at its start.
pub open spec fn trim_start(text: Seq<char>) -> Seq<char>
    decreases text.len(),
{
    if text.len() > 0 && is_white_space(text[0]) {
        trim_start(text.skip(1))
    } else {
        text
    }
}

/// A text without the white space at its end.
pub open spec fn trim_end(text: Seq<char>) -> Seq<char>
    decreases text.len(),
{
    if text.len() > 0 && is_white_space(text.last()) {
        trim_end(text.drop_last())
    } else {
        text
    }
}

/// A text without the white space at either end.
pub open spec fn trimmed(text: Seq<char>) -> Seq<char> {
    trim_end(trim_start(text))
}

/// The pieces that are left when each is trimmed and the empty ones are
/// dropped, in order.
pub open spec fn kept_entries(pieces: Seq<Seq<char>>) -> Seq<Seq<char>>
    decreases pieces.len(),
{
    if pieces.len() == 0 {
        Seq::empty()
    } else {
        let front = kept_entries(pieces.drop_last());
        let entry = trimmed(pieces.last());
        if entry.len() == 0 {
            front
        } else {
            front.push(entry)
        }
    }
}

/// The wallet addresses that a comma-separated list names: its pieces,
/// trimmed, without the empty ones. Nothing else is dropped: an entry that is
/// no address, or that comes twice, stays.
pub open spec fn wallet_entries(list: Seq<char>) -> Seq<Seq<char>> {
    kept_entries(split_commas(list))
}

/// The characters of a text, in order.
fn characters(text: &str) -> (chars: Vec<char>)
    ensures
        chars@ == text@,
{
    let mut chars: Vec<char> = Vec::new();
    for c in it: text.chars()
        invariant
            chars@ == it.seq().take(it.index() as int),
            it.seq() == text@,
    {
        chars.push(c);
    }
    chars
}

/// The bounds of what is left of `chars[from..to]` when it is trimmed.
fn trim_bounds(chars: &Vec<char>, from: usize, to: usize) -> (bounds: (usize, usize))
    requires
        from <= to <= chars.len(),
    ensures
        from <= bounds.0 <= bounds.1 <= to,
        chars@.subrange(bounds.0 as int, bounds.1 as int) == trimmed(
            chars@.subrange(from as int, to as int),
        ),
{
    let mut a = from;
    while a < to && white_space(chars[a])
        invariant
            from <= a <= to <= chars.len(),
            trim_start(chars@.subrange(from as int, to as int)) == trim_start(
                chars@.subrange(a as int, to as int),
            ),
        decreases to - a,
    {
        assert(chars@.subrange(a as int, to as int).skip(1) =~= chars@.subrange(
            a + 1,
            to as int,
        ));
        a = a + 1;
    }
    let mut b = to;
    while a < b && white_space(chars[b - 1])
        invariant
            a <= b <= to <= chars.len(),
            trim_end(chars@.subrange(a as int, to as int)) == trim_end(
                chars@.subrange(a as int, b as int),
            ),
        decreases b - a,
    {
        assert(chars@.subrange(a as int, b as int).drop_last() =~= chars@.subrange(
            a as int,
            b - 1,
        ));
        b = b - 1;
    }
    (a, b)
}

/// The wallet addresses that the query parameter names: the parameter is
/// split at its commas, each piece is trimmed, and empty pieces are dropped.
pub fn wallet_addresses(addresses: &str) -> (wallets: Vec<String>)
    ensures
        texts(wallets@) == wallet_entries(addresses@),
{
    let chars = characters(addresses);
    let n = chars.len();
    let mut wallets: Vec<String> = Vec::new();
    let mut start: usize = 0;
    let mut i: usize = 0;
    let ghost mut pieces: Seq<Seq<char>> = Seq::empty();
    assert(chars@.take(0) =~= Seq::<char>::empty());
    assert(chars@.subrange(0, 0) =~= Seq::<char>::empty());
    assert(seq![Seq::<char>::empty()] =~= pieces.push(Seq::<char>::empty()));
    assert(texts(wallets@) =~= kept_entries(pieces));
    while i < n
        invariant
            n == chars.len(),
            chars@ == addresses@,
            start <= i <= n,
            split_commas(chars@.take(i as int)) == pieces.push(
                chars@.subrange(start as int, i as int),
            ),
            texts(wallets@) == kept_entries(pieces),
        decreases n - i,
    {
        let ghost piece = chars@.subrange(start as int, i as int);
        proof {
            assert(chars@.take(i + 1).drop_last() =~= chars@.take(i as int));
            assert(pieces.push(piece).drop_last() =~= pieces);
        }
        if chars[i] == ',' {
            close_piece(addresses, &chars, start, i, &mut wallets, Ghost(pieces));
            proof {
                pieces = pieces.push(piece);
                assert(chars@.subrange(i + 1, i + 1) =~= Seq::<char>::empty());
            }
            start = i + 1;
        } else {
            proof {
                assert(chars@.subrange(start as int, i + 1) =~= piece.push(chars@[i as int]));
            }
        }
        i = i + 1;
    }
    close_piece(addresses, &chars, start, n, &mut wallets, Ghost(pieces));
    proof {
        assert(chars@.take(n as int) =~= chars@);
    }
    wallets
}

/// Ends the piece `chars[start..end]`: trimmed, it joins the wallets unless
/// it is empty.
fn close_piece(
    addresses: &str,
    chars: &Vec<char>,
    start: usize,
    end: usize,
    wallets: &mut Vec<String>,
    Ghost(pieces): Ghost<Seq<Seq<char>>>,
)
    requires
        chars@ == addresses@,
        start <= end <= chars.len(),
        texts(old(wallets)@) == kept_entries(pieces),
    ensures
        texts(final(wallets)@) == kept_entries(
            pieces.push(chars@.subrange(start as int, end as int)),
        ),
{
    let ghost piece = chars@.subrange(start as int, end as int);
    let ghost before = wallets@;
    proof {
        assert(pieces.push(piece).drop_last() =~= pieces);
    }
    let (a, b) = trim_bounds(chars, start, end);
    if a < b {
        let entry = String::from_str(addresses.substring_char(a, b));
        wallets.push(entry);
        assert(texts(wallets@) =~= texts(before).push(trimmed(piece)));
    }
}

/// Decides whether a request for a token's metadata is taken: one with an
/// empty token address is refused as a bad request, any other is taken.
pub fn admit_token_info(token_address: &str) -> (r: Result<(), Refusal>)
    ensures
        token_address@.len() == 0 ==> (r matches Err(refusal) && refusal@ == bad_token_address()),
        token_address@.len() != 0 ==> r is Ok,
{
    if token_address.unicode_len() == 0 {
        Err(
            Refusal {
                status: STATUS_BAD_REQUEST,
                error: String::from_str("Invalid token address"),
                message: String::from_str("empty string"),
            },
        )
    } else {
        Ok(())
    }
}

/// Decides whether a request for balances is taken, and for which wallets.
/// One whose token address is empty or no address is refused as a bad
/// request. Any other is taken, for the wallets that its list names.
pub fn admit_token_balances(token_address: &str, addresses: &str) -> (r: Result<
    Vec<String>,
    Refusal,
>)
    ensures
        !is_canonical_address(token_address@) ==> (r matches Err(refusal) && refusal@
            == bad_token_address()),
        is_canonical_address(token_address@) ==> (r matches Ok(wallets) && texts(wallets@)
            == wallet_entries(addresses@)),
{
    if token_address.unicode_len() == 0 || Address::validate(token_address).is_err() {
        Err(
            Refusal {
                status: STATUS_BAD_REQUEST,
                error: String::from_str("Invalid token address"),
                message: String::from_str("empty string"),
            },
        )
    } else {
        Ok(wallet_addresses(addresses))
    }
}

/// What a result of the facade is answered with: a value goes out as it is,
/// with status 200; any failure, of whatever kind, is refused as
/// unprocessable, with the failure's `Debug` form as the message.
pub fn answer<T>(result: Result<T, BlockchainServiceError>) -> (r: Result<T, Refusal>)
    ensures
        match result {
            Ok(value) => r == Ok::<T, Refusal>(value),
            Err(e) => r matches Err(refusal) && refusal@ == unprocessable(e@),
        },
{
    match result {
        Ok(value) => Ok(value),
        Err(e) => Err(
            Refusal {
                status: STATUS_UNPROCESSABLE_ENTITY,
                error: String::from_str("Blockchain service error"),
                message: e.debug_text(),
            },
        ),
    }
}

/// The status that an answer goes out with: 200 with a value, the refusal's
/// own with a refusal.
pub fn status<T>(answer: &Result<T, Refusal>) -> (code: u16)
    ensures
        match *answer {
            Ok(_) => code == STATUS_OK,
            Err(refusal) => code == refusal.status,
        },
{
    match answer {
        Ok(_) => STATUS_OK,
        Err(refusal) => refusal.status,
    }
}

/// What a failure of the middleware is answered with: a request that ran out
/// of time with status 408, any other failure with status 500 and its text.
pub fn handle_timeout_error(elapsed: bool, cause: &str) -> (r: (u16, String))
    ensures
        elapsed ==> r.0 == STATUS_REQUEST_TIMEOUT && r.1@ == "Request took too long"@,
        !elapsed ==> r.0 == STATUS_INTERNAL_SERVER_ERROR && r.1@
            == "Unhandled internal error: "@ + cause@,
{
    if elapsed {
        (STATUS_REQUEST_TIMEOUT, String::from_str("Request took too long"))
    } else {
        (
            STATUS_INTERNAL_SERVER_ERROR,
            String::from_str("Unhandled internal error: ").concat(cause),
        )
    }
}

} // verus!
