//! Tokens that a liquidity pair is made of: the wrapped native token, with
//! 18 decimals, and issued ERC-20 tokens, whose decimals come from their
//! metadata.

use vstd::prelude::*;
use vstd::string::StrSliceExecFns;
use crate::address::{Address, ascii_chars, checksum_hex};

verus! {

/// The value of a hexadecimal digit of either case.
pub open spec fn hex_digit(c: char) -> Option<u8> {
    if '0' <= c && c <= '9' {
        Some((c as u32 - '0' as u32) as u8)
    } else if 'a' <= c && c <= 'f' {
        Some((c as u32 - 'a' as u32 + 10) as u8)
    } else if 'A' <= c && c <= 'F' {
        Some((c as u32 - 'A' as u32 + 10) as u8)
    } else {
        None
    }
}

/// The digits of an address text: what follows an optional `0x` prefix.
pub open spec fn address_digits(s: Seq<char>) -> Seq<char> {
    if s.len() >= 2 && s[0] == '0' && s[1] == 'x' {
        s.subrange(2, s.len() as int)
    } else {
        s
    }
}

/// The bytes that an address text names: forty hexadecimal digits, two per
/// byte, high digit first, after an optional `0x`.
pub open spec fn address_text(s: Seq<char>) -> Option<Seq<u8>> {
    let d = address_digits(s);
    if d.len() == 40 && forall|i: int| 0 <= i < 40 ==> (#[trigger] hex_digit(d[i])) is Some {
        Some(
            Seq::new(
                20,
                |i: int| (16 * hex_digit(d[2 * i]).unwrap() + hex_digit(d[2 * i + 1]).unwrap()) as u8,
            ),
        )
    } else {
        None
    }
}

fn hex_digit_exec(c: char) -> (r: Option<u8>)
    ensures
        r == hex_digit(c),
{
    if '0' <= c && c <= '9' {
        Some((c as u32 - '0' as u32) as u8)
    } else if 'a' <= c && c <= 'f' {
        Some((c as u32 - 'a' as u32 + 10) as u8)
    } else if 'A' <= c && c <= 'F' {
        Some((c as u32 - 'A' as u32 + 10) as u8)
    } else {
        None
    }
}

/// Reads an address text.
pub fn parse_address(s: &str) -> (r: Option<Address>)
    ensures
        r is Some <==> address_text(s@) is Some,
        r is Some ==> r->0@ == address_text(s@)->0,
{
    let n = s.unicode_len();
    let start: usize = if n >= 2 && s.get_char(0) == '0' && s.get_char(1) == 'x' {
        2
    } else {
        0
    };
    let ghost d = address_digits(s@);
    assert(d =~= s@.subrange(start as int, n as int));
    if n - start != 40 {
        return None;
    }
    let mut a = Address::zero();
    let mut i: usize = 0;
    while i < 20
        invariant
            i <= 20,
            n == s@.len(),
            n - start == 40,
            d == s@.subrange(start as int, n as int),
            a.bytes@.len() == 20,
            forall|j: int| 0 <= j < 2 * i ==> (#[trigger] hex_digit(d[j])) is Some,
            forall|j: int|
                0 <= j < i ==> a.bytes@[j] == (16 * hex_digit(d[2 * j]).unwrap() + hex_digit(
                    d[2 * j + 1],
                ).unwrap()) as u8,
        decreases 20 - i,
    {
        let hi = hex_digit_exec(s.get_char(start + 2 * i));
        let lo = hex_digit_exec(s.get_char(start + 2 * i + 1));
        assert(d[2 * i as int] == s@[start + 2 * i]);
        assert(d[2 * i + 1] == s@[start + 2 * i + 1]);
        match (hi, lo) {
            (Some(h), Some(l)) => {
                a.bytes[i] = 16 * h + l;
                i = i + 1;
            },
            _ => {
                assert(!(forall|j: int| 0 <= j < 40 ==> (#[trigger] hex_digit(d[j])) is Some));
                return None;
            },
        }
    }
    assert(a.bytes@ =~= address_text(s@)->0);
    Some(a)
}

/// Ten to the power `n`.
pub open spec fn pow10(n: nat) -> nat
    decreases n,
{
    if n == 0 {
        1
    } else {
        10 * pow10((n - 1) as nat)
    }
}

/// `amount` whole tokens in base units, for a token of `decimals`.
pub open spec fn expanded(amount: nat, decimals: nat) -> nat {
    amount * pow10(decimals)
}

proof fn lemma_pow10_mono(a: nat, b: nat)
    requires
        a <= b,
    ensures
        pow10(a) <= pow10(b),
    decreases b,
{
    if a < b {
        lemma_pow10_mono(a, (b - 1) as nat);
    }
}

/// The expansion does not fit in the on-chain amount width.
#[derive(Clone, Copy, Debug, PartialEq, Eq, Structural)]
pub struct AmountOverflow;

/// `amount * 10^decimals`, or an error where that exceeds `u128::MAX`.
pub fn expand_to_decimals(amount: u32, decimals: u8) -> (r: Result<u128, AmountOverflow>)
    ensures
        r is Ok <==> expanded(amount as nat, decimals as nat) <= u128::MAX,
        r is Ok ==> r->Ok_0 == expanded(amount as nat, decimals as nat),
{
    let mut v: u128 = amount as u128;
    let mut i: u8 = 0;
    assert(pow10(0) == 1);
    while i < decimals
        invariant
            i <= decimals,
            v == amount * pow10(i as nat),
        decreases decimals - i,
    {
        proof {
            assert(pow10((i + 1) as nat) == 10 * pow10(i as nat));
            assert(amount * pow10((i + 1) as nat) == v * 10) by (nonlinear_arith)
                requires
                    v == amount * pow10(i as nat),
                    pow10((i + 1) as nat) == 10 * pow10(i as nat),
            ;
        }
        match v.checked_mul(10) {
            Some(x) => {
                v = x;
            },
            None => {
                proof {
                    let p = pow10((i + 1) as nat);
                    let q = pow10(decimals as nat);
                    lemma_pow10_mono((i + 1) as nat, decimals as nat);
                    assert(amount * p <= amount * q) by (nonlinear_arith)
                        requires
                            p <= q,
                    ;
                }
                return Err(AmountOverflow);
            },
        }
        i = i + 1;
    }
    Ok(v)
}

/// Name, symbol and decimals of an issued token.
#[derive(Clone, Debug)]
pub struct Erc20Specs {
    pub name: String,
    pub symbol: String,
    pub decimals: u8,
}

/// Where a bridged token was deployed on this chain.
#[derive(Clone, Debug)]
pub struct Erc20Deploy {
    pub neonevm_erc20token_address: String,
}

/// A bridged token's metadata together with its deployment.
#[derive(Clone, Debug)]
pub struct Erc20DeploySpecs {
    pub specs: Erc20Specs,
    pub deploy: Erc20Deploy,
}

/// Provenance of an issued token.
#[derive(Clone, Debug)]
pub enum Erc20Means {
    /// Issued on this chain.
    Origin,
    /// Bridged from elsewhere.
    Bridge(Erc20Deploy),
}

#[derive(Clone, Debug)]
pub struct Erc20Token {
    pub specs: Erc20Specs,
    pub eth_address: Address,
    pub means: Erc20Means,
}

impl Erc20Token {
    pub fn get_name(&self) -> (r: &str)
        ensures
            r@ == self.specs.name@,
    {
        self.specs.name.as_str()
    }

    pub fn get_symbol(&self) -> (r: &str)
        ensures
            r@ == self.specs.symbol@,
    {
        self.specs.symbol.as_str()
    }

    /// A bridged token at the address its deployment names.
    pub fn from_deploy_specs(f: Erc20DeploySpecs) -> (r: Erc20Token)
        requires
            address_text(f.deploy.neonevm_erc20token_address@) is Some,
        ensures
            r.specs == f.specs,
            r.eth_address@ == address_text(f.deploy.neonevm_erc20token_address@)->0,
            r.means == Erc20Means::Bridge(f.deploy),
    {
        let a = match parse_address(f.deploy.neonevm_erc20token_address.as_str()) {
            Some(a) => a,
            None => Address::zero(),
        };
        Erc20Token { specs: f.specs, eth_address: a, means: Erc20Means::Bridge(f.deploy) }
    }

    pub open spec fn means_name(&self) -> Seq<char> {
        match self.means {
            Erc20Means::Origin => "Origin"@,
            Erc20Means::Bridge(_) => "Bridge"@,
        }
    }

    /// `ERC20 <provenance>: <name> [ <symbol> ] ; Contract Address: <address>`,
    /// the address in its checksum text.
    pub fn describe(&self) -> (r: String)
        ensures
            r@ == "ERC20 "@ + self.means_name() + ": "@ + self.specs.name@ + " [ "@
                + self.specs.symbol@ + " ] ; Contract Address: 0x"@ + ascii_chars(
                checksum_hex(self.eth_address@),
            ),
    {
        let mut r = String::new();
        r.append("ERC20 ");
        match self.means {
            Erc20Means::Origin => r.append("Origin"),
            Erc20Means::Bridge(_) => r.append("Bridge"),
        }
        r.append(": ");
        r.append(self.specs.name.as_str());
        r.append(" [ ");
        r.append(self.specs.symbol.as_str());
        r.append(" ] ; Contract Address: ");
        let a = self.eth_address.to_checksum_text();
        r.append(a.as_str());
        proof {
            reveal_strlit("ERC20 ");
            reveal_strlit("Origin");
            reveal_strlit("Bridge");
            reveal_strlit(": ");
            reveal_strlit(" [ ");
            reveal_strlit(" ] ; Contract Address: ");
            reveal_strlit(" ] ; Contract Address: 0x");
            reveal_strlit("0x");
            assert(" ] ; Contract Address: "@ + "0x"@ =~= " ] ; Contract Address: 0x"@);
        }
        assert(r@ =~= "ERC20 "@ + self.means_name() + ": "@ + self.specs.name@ + " [ "@
            + self.specs.symbol@ + " ] ; Contract Address: 0x"@ + ascii_chars(
            checksum_hex(self.eth_address@),
        ));
        r
    }

    /// `<name> [ <symbol> ]`.
    pub fn label(&self) -> (r: String)
        ensures
            r@ == self.specs.name@ + " [ "@ + self.specs.symbol@ + " ]"@,
    {
        let mut r = self.specs.name.clone();
        r.append(" [ ");
        r.append(self.specs.symbol.as_str());
        r.append(" ]");
        r
    }
}

/// The chain's wrapped native token.
#[derive(Clone, Copy, Debug)]
pub struct WethToken {
    pub eth_address: Address,
}

/// Decimals of the wrapped native token.
pub const WETH_DECIMALS: u8 = 18;

impl WethToken {
    /// The wrapped native token at the address that `a` names.
    pub fn new(a: &str) -> (r: WethToken)
        requires
            address_text(a@) is Some,
        ensures
            r.eth_address@ == address_text(a@)->0,
    {
        match parse_address(a) {
            Some(x) => WethToken { eth_address: x },
            None => WethToken { eth_address: Address::zero() },
        }
    }

    /// `ERC20 Wrapped Ether [ WETH ] ; Contract Address: <address>`, the
    /// address in its checksum text.
    pub fn describe(&self) -> (r: String)
        ensures
            r@ == "ERC20 Wrapped Ether [ WETH ] ; Contract Address: "@ + "0x"@ + ascii_chars(
                checksum_hex(self.eth_address@),
            ),
    {
        let mut r = String::new();
        r.append("ERC20 Wrapped Ether [ WETH ] ; Contract Address: ");
        let a = self.eth_address.to_checksum_text();
        r.append(a.as_str());
        assert(r@ =~= "ERC20 Wrapped Ether [ WETH ] ; Contract Address: "@ + "0x"@ + ascii_chars(
            checksum_hex(self.eth_address@),
        ));
        r
    }

    /// `Wrapped Ether [ WETH ]`.
    pub fn label(&self) -> (r: String)
        ensures
            r@ == "Wrapped Ether [ WETH ]"@,
    {
        proof {
            reveal_strlit("Wrapped Ether [ WETH ]");
        }
        let mut r = String::new();
        r.append("Wrapped Ether [ WETH ]");
        r
    }
}

/// One side of a trading pair.
#[derive(Clone, Debug)]
pub enum SwapToken {
    Weth(WethToken),
    Erc20(Erc20Token),
}

impl SwapToken {
    pub open spec fn decimals_spec(&self) -> u8 {
        match self {
            SwapToken::Weth(_) => WETH_DECIMALS,
            SwapToken::Erc20(t) => t.specs.decimals,
        }
    }

    pub open spec fn address_spec(&self) -> Seq<u8> {
        match self {
            SwapToken::Weth(t) => t.eth_address@,
            SwapToken::Erc20(t) => t.eth_address@,
        }
    }

    /// The description of the token, whichever kind it is.
    pub fn describe(&self) -> (r: String)
        ensures
            self matches SwapToken::Weth(t) ==> r@ == "ERC20 Wrapped Ether [ WETH ] ; Contract Address: "@
                + "0x"@ + ascii_chars(checksum_hex(t.eth_address@)),
            self matches SwapToken::Erc20(t) ==> r@ == "ERC20 "@ + t.means_name() + ": "@
                + t.specs.name@ + " [ "@ + t.specs.symbol@ + " ] ; Contract Address: 0x"@
                + ascii_chars(checksum_hex(t.eth_address@)),
    {
        match self {
            SwapToken::Weth(t) => t.describe(),
            SwapToken::Erc20(t) => t.describe(),
        }
    }

    pub fn decimals(&self) -> (r: u8)
        ensures
            r == self.decimals_spec(),
    {
        match self {
            SwapToken::Weth(_) => WETH_DECIMALS,
            SwapToken::Erc20(t) => t.specs.decimals,
        }
    }

    pub fn get_address(&self) -> (r: Address)
        ensures
            r@ == self.address_spec(),
    {
        match self {
            SwapToken::Weth(t) => t.eth_address,
            SwapToken::Erc20(t) => t.eth_address,
        }
    }

    /// `amount` whole tokens in base units, or an error where they exceed
    /// the on-chain amount width.
    pub fn expand_from_uint(&self, amount: u32) -> (r: Result<u128, AmountOverflow>)
        ensures
            r is Ok <==> expanded(amount as nat, self.decimals_spec() as nat) <= u128::MAX,
            r is Ok ==> r->Ok_0 == expanded(amount as nat, self.decimals_spec() as nat),
    {
        expand_to_decimals(amount, self.decimals())
    }

    /// A bridged token, as an issued side of a pair.
    pub fn from_deploy_specs(f: Erc20DeploySpecs) -> (r: SwapToken)
        requires
            address_text(f.deploy.neonevm_erc20token_address@) is Some,
        ensures
            r is Erc20,
            r->Erc20_0.specs == f.specs,
            r->Erc20_0.eth_address@ == address_text(f.deploy.neonevm_erc20token_address@)->0,
            r->Erc20_0.means == Erc20Means::Bridge(f.deploy),
    {
        SwapToken::Erc20(Erc20Token::from_deploy_specs(f))
    }
}

} // verus!
