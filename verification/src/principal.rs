//! Principals, the subaccounts derived from them, and ledger accounts.

use crate::bytes::{bytes_equal, copy_bytes};
use vstd::prelude::*;
use vstd::string::is_ascii;

verus! {

/// The longest a principal can be, in bytes.
pub const MAX_PRINCIPAL_LENGTH: usize = 29;

/// What `candid::Principal::from_text` makes of a text: the bytes of the
/// principal that the text denotes, or `None` where it denotes none.
pub uninterp spec fn principal_text_bytes(text: Seq<char>) -> Option<Seq<u8>>;

/// What `b3_utils::ledger::ICRCAccount::from_text` makes of a text: the bytes
/// of the owner and, if the text names one, the 32 bytes of the subaccount;
/// `None` where the text denotes no account.
pub uninterp spec fn account_text_parts(text: Seq<char>) -> Option<(Seq<u8>, Option<Seq<u8>>)>;

/// The view of an optional 32-byte string.
pub open spec fn optional_bytes(bytes: Option<[u8; 32]>) -> Option<Seq<u8>> {
    match bytes {
        Some(b) => Some(b@),
        None => None,
    }
}

/// Parses the textual form of a principal.
///
/// Trusted: `candid::Principal::from_text` depends on the text alone, does not
/// panic, and either fails or returns a principal; `as_slice` gives its bytes.
/// The contract gives that result a name and says nothing else of it.
#[verifier::external_body]
fn principal_from_text(text: &str) -> (bytes: Option<Vec<u8>>)
    ensures
        match bytes {
            Some(b) => principal_text_bytes(text@) == Some(b@),
            None => principal_text_bytes(text@) is None,
        },
{
    match candid::Principal::from_text(text) {
        Ok(principal) => Some(principal.as_slice().to_vec()),
        Err(_) => None,
    }
}

/// Parses the textual form of a ledger account.
///
/// Trusted: `b3_utils::ledger::ICRCAccount::from_text` depends on the text
/// alone and either fails or returns an account, whose owner and subaccount
/// are handed out as bytes. On a text that is not ASCII it can panic, which
/// the precondition rules out. The contract gives the result a name and says
/// nothing else of it.
#[verifier::external_body]
fn account_from_text(text: &str) -> (parts: Option<(Vec<u8>, Option<[u8; 32]>)>)
    requires
        is_ascii(text),
    ensures
        match parts {
            Some((owner, subaccount)) => account_text_parts(text@) == Some(
                (owner@, optional_bytes(subaccount)),
            ),
            None => account_text_parts(text@) is None,
        },
{
    match b3_utils::ledger::ICRCAccount::from_text(text) {
        Ok(account) => Some(
            (
                account.owner().as_slice().to_vec(),
                match account.subaccount() {
                    Some(subaccount) => Some(subaccount.0),
                    None => None,
                },
            ),
        ),
        Err(_) => None,
    }
}

/// The subaccount that stands for a principal: one byte for the length of
/// the principal, then its bytes, then zeros up to 32 bytes.
pub open spec fn principal_subaccount(principal: Seq<u8>) -> Seq<u8> {
    Seq::new(
        32,
        |i: int|
            if i == 0 {
                principal.len() as u8
            } else if i <= principal.len() {
                principal[i - 1]
            } else {
                0u8
            },
    )
}

/// Derives the subaccount that stands for a principal.
///
/// Trusted: `candid::Principal::from_slice` keeps the bytes of a slice of at
/// most 29 bytes (and panics on a longer one, which the precondition rules
/// out); `b3_utils::Subaccount::from` then writes the length of the principal
/// into the first of 32 zeroed bytes and the principal's bytes behind it.
#[verifier::external_body]
fn subaccount_from_principal(principal: &Vec<u8>) -> (subaccount: [u8; 32])
    requires
        principal@.len() <= MAX_PRINCIPAL_LENGTH,
    ensures
        subaccount@ == principal_subaccount(principal@),
{
    b3_utils::Subaccount::from(candid::Principal::from_slice(principal)).0
}

/// Why a subaccount is not handed out as the 32 bytes of a principal.
#[derive(Clone, Copy, Debug, PartialEq, Eq, Structural)]
pub enum SubaccountError {
    /// The subaccount stands for no principal: its first byte is zero.
    NotPrincipal,
    /// The first byte gives a length that no principal has.
    LengthError(usize),
}

/// What `to_bytes32` gives for a subaccount.
pub open spec fn bytes32_of(subaccount: Seq<u8>) -> Result<Seq<u8>, SubaccountError> {
    if subaccount[0] == 0 {
        Err(SubaccountError::NotPrincipal)
    } else if subaccount[0] > MAX_PRINCIPAL_LENGTH {
        Err(SubaccountError::LengthError(subaccount[0] as usize))
    } else {
        Ok(subaccount)
    }
}

/// The view of the result of `to_bytes32`.
pub open spec fn bytes32_view(result: Result<[u8; 32], SubaccountError>) -> Result<
    Seq<u8>,
    SubaccountError,
> {
    match result {
        Ok(b) => Ok(b@),
        Err(e) => Err(e),
    }
}

/// Hands out a subaccount as the 32 bytes of a principal.
///
/// Trusted: `b3_utils::Subaccount::to_bytes32` fails with `NotPrincipal` where
/// the first byte is zero, with `LengthError` of that byte where it is over
/// 29, and else returns the 32 bytes unchanged. The two other errors of the
/// outside type are not returned by this call.
#[verifier::external_body]
fn subaccount_to_bytes32(subaccount: &[u8; 32]) -> (result: Result<[u8; 32], SubaccountError>)
    ensures
        bytes32_view(result) == bytes32_of(subaccount@),
{
    match b3_utils::Subaccount(*subaccount).to_bytes32() {
        Ok(bytes) => Ok(bytes),
        Err(b3_utils::SubaccountError::LengthError(n)) => Err(SubaccountError::LengthError(n)),
        Err(_) => Err(SubaccountError::NotPrincipal),
    }
}

/// The lower-case hexadecimal digit of a number below 16.
pub open spec fn hex_digit(n: int) -> char {
    if n < 10 {
        (48 + n) as u8 as char
    } else {
        (87 + n) as u8 as char
    }
}

/// The lower-case hexadecimal notation of a byte string, two digits a byte.
pub open spec fn hex_text(bytes: Seq<u8>) -> Seq<char> {
    Seq::new(
        2 * bytes.len(),
        |i: int|
            if i % 2 == 0 {
                hex_digit(bytes[i / 2] as int / 16)
            } else {
                hex_digit(bytes[i / 2] as int % 16)
            },
    )
}

/// Writes 32 bytes in hexadecimal behind the prefix `0x`.
///
/// Trusted: `b3_utils::vec_to_hex_string_with_0x` writes `0x` and then what
/// `hex::encode` gives, which is two lower-case hexadecimal digits for each
/// byte, the high half first, in the order of the bytes.
#[verifier::external_body]
fn hex_with_0x(bytes: &[u8; 32]) -> (text: String)
    ensures
        text@ == seq!['0', 'x'] + hex_text(bytes@),
{
    b3_utils::vec_to_hex_string_with_0x(bytes)
}

/// A principal: the identity of a canister or of a user, up to 29 bytes.
///
/// Its view is its bytes.
#[derive(Debug, PartialEq, Eq)]
pub struct PrincipalId {
    bytes: Vec<u8>,
}

impl View for PrincipalId {
    type V = Seq<u8>;

    closed spec fn view(&self) -> Seq<u8> {
        self.bytes@
    }
}

impl Clone for PrincipalId {
    fn clone(&self) -> (copy: PrincipalId)
        ensures
            copy@ == self@,
    {
        proof {
            use_type_invariant(self);
        }
        PrincipalId { bytes: copy_bytes(&self.bytes) }
    }
}

impl PrincipalId {
    #[verifier::type_invariant]
    spec fn bounded(&self) -> bool {
        self.bytes@.len() <= MAX_PRINCIPAL_LENGTH
    }

    /// The length of the principal in bytes, which is at most 29.
    pub fn len(&self) -> (n: usize)
        ensures
            n == self@.len(),
            n <= MAX_PRINCIPAL_LENGTH,
    {
        proof {
            use_type_invariant(self);
        }
        self.bytes.len()
    }

    /// The principal with the given bytes, if they are at most 29.
    pub fn from_slice(bytes: &[u8]) -> (principal: Option<PrincipalId>)
        ensures
            principal is Some <==> bytes@.len() <= MAX_PRINCIPAL_LENGTH,
            principal matches Some(p) ==> p@ == bytes@,
    {
        if bytes.len() > MAX_PRINCIPAL_LENGTH {
            return None;
        }
        let mut copy: Vec<u8> = Vec::new();
        let mut i: usize = 0;
        while i < bytes.len()
            invariant
                i <= bytes@.len(),
                copy@ == bytes@.subrange(0, i as int),
            decreases bytes@.len() - i,
        {
            copy.push(bytes[i]);
            assert(copy@ =~= bytes@.subrange(0, i + 1));
            i += 1;
        }
        assert(copy@ =~= bytes@);
        Some(PrincipalId { bytes: copy })
    }

    /// The principal that a text denotes, if it denotes one.
    pub fn from_text(text: &str) -> (principal: Option<PrincipalId>)
        ensures
            match principal {
                Some(p) => principal_text_bytes(text@) == Some(p@) && p@.len()
                    <= MAX_PRINCIPAL_LENGTH,
                None => principal_text_bytes(text@) matches Some(bytes) ==> bytes.len()
                    > MAX_PRINCIPAL_LENGTH,
            },
    {
        match principal_from_text(text) {
            Some(bytes) => if bytes.len() <= MAX_PRINCIPAL_LENGTH {
                Some(PrincipalId { bytes })
            } else {
                None
            },
            None => None,
        }
    }

    /// The bytes of the principal.
    pub fn to_vec(&self) -> (bytes: Vec<u8>)
        ensures
            bytes@ == self@,
    {
        copy_bytes(&self.bytes)
    }

    /// Whether two principals are the same.
    pub fn equals(&self, other: &PrincipalId) -> (same: bool)
        ensures
            same == (self@ == other@),
    {
        bytes_equal(&self.bytes, &other.bytes)
    }
}

/// A subaccount of a ledger account: 32 bytes.
#[derive(Clone, Copy, Debug, PartialEq, Eq)]
pub struct Subaccount(pub [u8; 32]);

impl View for Subaccount {
    type V = Seq<u8>;

    open spec fn view(&self) -> Seq<u8> {
        self.0@
    }
}

impl Subaccount {
    /// The subaccount that stands for a principal.
    pub fn from_principal(principal: &PrincipalId) -> (subaccount: Subaccount)
        ensures
            subaccount@ == principal_subaccount(principal@),
    {
        proof {
            use_type_invariant(principal);
        }
        Subaccount(subaccount_from_principal(&principal.bytes))
    }

    /// The 32 bytes of a subaccount that stands for a principal.
    pub fn to_bytes32(&self) -> (result: Result<[u8; 32], SubaccountError>)
        ensures
            bytes32_view(result) == bytes32_of(self@),
    {
        subaccount_to_bytes32(&self.0)
    }
}

/// The view of an optional subaccount.
pub open spec fn optional_subaccount(subaccount: Option<Subaccount>) -> Option<Seq<u8>> {
    match subaccount {
        Some(s) => Some(s@),
        None => None,
    }
}

/// The subaccount of a principal stands for a principal exactly if the
/// principal is not empty, and is then handed out whole.
pub proof fn principal_subaccount_holds_principal(principal: Seq<u8>)
    requires
        principal.len() <= MAX_PRINCIPAL_LENGTH,
    ensures
        principal.len() > 0 ==> bytes32_of(principal_subaccount(principal)) == Ok::<
            Seq<u8>,
            SubaccountError,
        >(principal_subaccount(principal)),
        principal.len() == 0 ==> bytes32_of(principal_subaccount(principal)) == Err::<
            Seq<u8>,
            SubaccountError,
        >(SubaccountError::NotPrincipal),
{
}

/// The text under which a canister receives deposits on Ethereum: the
/// subaccount of its principal, in hexadecimal behind `0x`.
pub open spec fn deposit_principal(canister: Seq<u8>) -> Result<Seq<char>, SubaccountError> {
    match bytes32_of(principal_subaccount(canister)) {
        Ok(bytes) => Ok(seq!['0', 'x'] + hex_text(bytes)),
        Err(e) => Err(e),
    }
}

/// The view of a text or an error.
pub open spec fn text_or_error(result: Result<String, SubaccountError>) -> Result<
    Seq<char>,
    SubaccountError,
> {
    match result {
        Ok(text) => Ok(text@),
        Err(e) => Err(e),
    }
}

/// The 32-byte argument that names `canister` as the receiver in a deposit to
/// the minter's Ethereum contract. The empty principal has none.
pub fn canister_deposit_principal(canister: &PrincipalId) -> (result: Result<
    String,
    SubaccountError,
>)
    ensures
        text_or_error(result) == deposit_principal(canister@),
        result is Ok <==> canister@.len() > 0,
{
    proof {
        use_type_invariant(canister);
        principal_subaccount_holds_principal(canister@);
    }
    let subaccount = Subaccount::from_principal(canister);
    match subaccount.to_bytes32() {
        Ok(bytes32) => Ok(hex_with_0x(&bytes32)),
        Err(e) => Err(e),
    }
}

/// An account on a ledger: an owner and, optionally, one of its subaccounts.
#[derive(Debug, PartialEq, Eq)]
pub struct Account {
    pub owner: PrincipalId,
    pub subaccount: Option<Subaccount>,
}

/// An [`Account`] as plain data.
pub struct AccountView {
    pub owner: Seq<u8>,
    pub subaccount: Option<Seq<u8>>,
}

impl View for Account {
    type V = AccountView;

    open spec fn view(&self) -> AccountView {
        AccountView { owner: self.owner@, subaccount: optional_subaccount(self.subaccount) }
    }
}

/// The account that a text denotes, by its parts.
pub open spec fn account_of_parts(parts: Option<(Seq<u8>, Option<Seq<u8>>)>) -> Option<
    AccountView,
> {
    match parts {
        Some((owner, subaccount)) => if owner.len() <= MAX_PRINCIPAL_LENGTH {
            Some(AccountView { owner, subaccount })
        } else {
            None
        },
        None => None,
    }
}

/// The account that a text denotes: none where the text is not ASCII, else
/// what the parser makes of it.
pub open spec fn account_of_text(text: Seq<char>) -> Option<AccountView> {
    if vstd::utf8::is_ascii_chars(text) {
        account_of_parts(account_text_parts(text))
    } else {
        None
    }
}

/// The view of an optional account.
pub open spec fn optional_account(account: Option<Account>) -> Option<AccountView> {
    match account {
        Some(a) => Some(a@),
        None => None,
    }
}

impl Account {
    /// The account of `owner`, or one of its subaccounts.
    pub fn new(owner: PrincipalId, subaccount: Option<Subaccount>) -> (account: Account)
        ensures
            account@ == (AccountView { owner: owner@, subaccount: optional_subaccount(subaccount) }),
    {
        Account { owner, subaccount }
    }

    /// Builds the account from the parts that the parser found.
    pub fn from_parts(parts: Option<(Vec<u8>, Option<[u8; 32]>)>) -> (account: Option<Account>)
        ensures
            optional_account(account) == account_of_parts(
                match parts {
                    Some((owner, subaccount)) => Some((owner@, optional_bytes(subaccount))),
                    None => None,
                },
            ),
    {
        match parts {
            Some((owner, subaccount)) => {
                if owner.len() > MAX_PRINCIPAL_LENGTH {
                    return None;
                }
                let subaccount = match subaccount {
                    Some(bytes) => Some(Subaccount(bytes)),
                    None => None,
                };
                Some(Account { owner: PrincipalId { bytes: owner }, subaccount })
            },
            None => None,
        }
    }

    /// The account that a text denotes, if it denotes one.
    pub fn from_text(text: &str) -> (account: Option<Account>)
        ensures
            optional_account(account) == account_of_text(text@),
    {
        if !text.is_ascii() {
            return None;
        }
        Account::from_parts(account_from_text(text))
    }
}

} // verus!
