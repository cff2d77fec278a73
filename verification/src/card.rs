//! Card data as the vault protocol carries it: the card number with its
//! checksum invariant, and the card shapes exchanged with the vault.

use vstd::prelude::*;

use vstd::string::StrSliceExecFns;

verus! {

/// The numeric value of a decimal digit character.
pub open spec fn digit_val(c: char) -> int {
    c as int - '0' as int
}

/// Every character is a decimal digit.
pub open spec fn all_digits(s: Seq<char>) -> bool {
    forall|i: int| 0 <= i < s.len() ==> '0' <= #[trigger] s[i] <= '9'
}

/// One digit's contribution to the checksum: doubled on every second
/// position from the right, with the excess over nine folded back.
pub open spec fn luhn_digit(c: char, doubled: bool) -> int {
    if doubled {
        let d = 2 * digit_val(c);
        if d > 9 {
            d - 9
        } else {
            d
        }
    } else {
        digit_val(c)
    }
}

/// The checksum of the digits, the last one contributing with the given
/// parity.
pub open spec fn luhn_sum(s: Seq<char>, doubled: bool) -> int
    decreases s.len(),
{
    if s.len() == 0 {
        0
    } else {
        luhn_digit(s.last(), doubled) + luhn_sum(s.drop_last(), !doubled)
    }
}

/// A sequence of digits passes the checksum.
pub open spec fn spec_valid_luhn(s: Seq<char>) -> bool {
    luhn_sum(s, false) % 10 == 0
}

/// A card number is well formed: twelve to nineteen digits passing the
/// checksum.
pub open spec fn spec_valid_card_number(s: Seq<char>) -> bool {
    &&& 12 <= s.len() <= 19
    &&& all_digits(s)
    &&& spec_valid_luhn(s)
}

/// A validated card number.
#[derive(Debug)]
pub struct CardNumber {
    number: String,
}

impl View for CardNumber {
    type V = Seq<char>;

    closed spec fn view(&self) -> Seq<char> {
        self.number@
    }
}

impl Clone for CardNumber {
    fn clone(&self) -> (r: Self)
        ensures
            r == *self,
    {
        CardNumber { number: self.number.clone() }
    }
}

/// Whether the digits pass the checksum.
fn luhn_check(s: &str) -> (r: bool)
    requires
        all_digits(s@),
        s@.len() <= 19,
    ensures
        r == spec_valid_luhn(s@),
{
    let n = s.unicode_len();
    let mut sum: u32 = 0;
    proof {
        assert(s@.take(n as int) =~= s@);
    }
    for k in 0..n
        invariant
            n == s@.len() <= 19,
            all_digits(s@),
            sum <= 18 * k,
            luhn_sum(s@, false) == sum + luhn_sum(s@.take(n as int - k as int), k % 2 == 1),
    {
        let c = s.get_char(n - 1 - k);
        let ghost t = s@.take(n as int - k as int);
        proof {
            assert(t.len() > 0);
            assert(t.last() == s@[n as int - 1 - k as int]);
            assert(t.drop_last() =~= s@.take(n as int - k as int - 1));
        }
        let d: u32 = (c as u32) - ('0' as u32);
        let addend: u32 = if k % 2 == 1 {
            let dd = 2 * d;
            if dd > 9 {
                dd - 9
            } else {
                dd
            }
        } else {
            d
        };
        sum = sum + addend;
    }
    proof {
        assert(s@.take(0) =~= Seq::<char>::empty());
    }
    sum % 10 == 0
}

impl CardNumber {
    /// Validate digits, length and checksum; the only way a card number is
    /// made.
    pub fn try_new(number: String) -> (r: Result<CardNumber, crate::errors::VaultError>)
        ensures
            r is Ok <==> spec_valid_card_number(number@),
            r is Ok ==> r->Ok_0@ == number@,
    {
        let n = number.as_str().unicode_len();
        if n < 12 || n > 19 {
            return Err(crate::errors::VaultError::FetchCardFailed);
        }
        for i in 0..n
            invariant
                n == number@.len(),
                forall|j: int| 0 <= j < i ==> '0' <= #[trigger] number@[j] <= '9',
        {
            let c = number.as_str().get_char(i);
            if c < '0' || c > '9' {
                return Err(crate::errors::VaultError::FetchCardFailed);
            }
        }
        if !luhn_check(number.as_str()) {
            return Err(crate::errors::VaultError::FetchCardFailed);
        }
        Ok(CardNumber { number })
    }

    /// The digits as text.
    pub fn peek(&self) -> (r: &str)
        ensures
            r@ == self@,
    {
        self.number.as_str()
    }

    /// The number never leaves this type without validation.
    pub open spec fn wf(&self) -> bool {
        spec_valid_card_number(self@)
    }

    /// The last four digits.
    pub fn get_last4(&self) -> (r: String)
        requires
            self@.len() >= 4,
        ensures
            r@ == self@.subrange(self@.len() - 4, self@.len() as int),
    {
        let n = self.number.as_str().unicode_len();
        self.number.as_str().substring_char(n - 4, n).to_owned()
    }

    /// The issuer identification prefix: the first six digits.
    pub fn get_card_isin(&self) -> (r: String)
        requires
            self@.len() >= 6,
        ensures
            r@ == self@.subrange(0, 6),
    {
        self.number.as_str().substring_char(0, 6).to_owned()
    }
}

/// A card as the vault hands it out.
#[derive(Debug)]
pub struct Card {
    pub card_number: CardNumber,
    pub name_on_card: Option<String>,
    pub card_exp_month: String,
    pub card_exp_year: String,
    pub card_brand: Option<String>,
    pub card_isin: Option<String>,
    pub nick_name: Option<String>,
}

impl Clone for Card {
    fn clone(&self) -> (r: Self)
        ensures
            r == *self,
    {
        Card {
            card_number: self.card_number.clone(),
            name_on_card: self.name_on_card.clone(),
            card_exp_month: self.card_exp_month.clone(),
            card_exp_year: self.card_exp_year.clone(),
            card_brand: self.card_brand.clone(),
            card_isin: self.card_isin.clone(),
            nick_name: self.nick_name.clone(),
        }
    }
}

/// The card details an add-card request carries.
#[derive(Debug)]
pub struct CardDetail {
    pub card_number: CardNumber,
    pub card_exp_month: String,
    pub card_exp_year: String,
    pub card_holder_name: Option<String>,
    pub nick_name: Option<String>,
    pub card_issuing_country: Option<String>,
    pub card_network: Option<String>,
    pub card_issuer: Option<String>,
    pub card_type: Option<String>,
    pub card_cvc: Option<String>,
}

impl Clone for CardDetail {
    fn clone(&self) -> (r: Self)
        ensures
            r == *self,
    {
        CardDetail {
            card_number: self.card_number.clone(),
            card_exp_month: self.card_exp_month.clone(),
            card_exp_year: self.card_exp_year.clone(),
            card_holder_name: self.card_holder_name.clone(),
            nick_name: self.nick_name.clone(),
            card_issuing_country: self.card_issuing_country.clone(),
            card_network: self.card_network.clone(),
            card_issuer: self.card_issuer.clone(),
            card_type: self.card_type.clone(),
            card_cvc: self.card_cvc.clone(),
        }
    }
}

/// The card details as the locker stores them, handed back to callers.
#[derive(Debug)]
pub struct CardDetailFromLocker {
    pub scheme: Option<String>,
    pub issuer_country: Option<String>,
    pub last4_digits: Option<String>,
    pub card_number: Option<CardNumber>,
    pub expiry_month: Option<String>,
    pub expiry_year: Option<String>,
    pub card_token: Option<String>,
    pub card_fingerprint: Option<String>,
    pub card_holder_name: Option<String>,
    pub nick_name: Option<String>,
    pub card_isin: Option<String>,
    pub card_issuer: Option<String>,
    pub card_network: Option<String>,
    pub card_type: Option<String>,
    pub saved_to_locker: bool,
}

} // verus!
