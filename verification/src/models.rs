use vstd::prelude::*;

verus! {

/// The DEX protocols whose subgraphs the fetcher reads.
#[derive(Debug, Clone, Copy, PartialEq, Eq, Structural)]
pub enum Protocol {
    UniV3,
    AerodromeV3,
    UniV2,
    UniV4,
    PancakeV4,
}

impl Protocol {
    /// The label under which pools of this protocol are stored.
    pub open spec fn label(self) -> Seq<char> {
        match self {
            Protocol::UniV3 => "V3"@,
            Protocol::AerodromeV3 => "Aerodrome-V3"@,
            Protocol::UniV2 => "V2"@,
            Protocol::UniV4 => "V4"@,
            Protocol::PancakeV4 => "Pancake-V4"@,
        }
    }

    /// The label under which pools of this protocol are stored.
    pub fn as_str(&self) -> (r: &'static str)
        ensures
            r@ == self.label(),
    {
        match self {
            Protocol::UniV3 => "V3",
            Protocol::AerodromeV3 => "Aerodrome-V3",
            Protocol::UniV2 => "V2",
            Protocol::UniV4 => "V4",
            Protocol::PancakeV4 => "Pancake-V4",
        }
    }
}

/// A pool of any protocol, in the shape in which it is stored.
///
/// `tvl_usd` keeps the decimal text of the pool's value locked in USD, as the
/// subgraph or the database gave it.
#[derive(Debug, Clone)]
pub struct UnifiedPool {
    pub id: String,
    pub protocol: String,
    pub token0_id: String,
    pub token0_symbol: String,
    pub token1_id: String,
    pub token1_symbol: String,
    pub fee: u32,
    pub decimals0: Option<u8>,
    pub decimals1: Option<u8>,
    pub raw_json: String,
    pub extra_data: String,
    pub tvl_usd: String,
}

/// The model of a [`UnifiedPool`].
pub struct UnifiedPoolView {
    pub id: Seq<char>,
    pub protocol: Seq<char>,
    pub token0_id: Seq<char>,
    pub token0_symbol: Seq<char>,
    pub token1_id: Seq<char>,
    pub token1_symbol: Seq<char>,
    pub fee: u32,
    pub decimals0: Option<u8>,
    pub decimals1: Option<u8>,
    pub raw_json: Seq<char>,
    pub extra_data: Seq<char>,
    pub tvl_usd: Seq<char>,
}

impl View for UnifiedPool {
    type V = UnifiedPoolView;

    open spec fn view(&self) -> UnifiedPoolView {
        UnifiedPoolView {
            id: self.id@,
            protocol: self.protocol@,
            token0_id: self.token0_id@,
            token0_symbol: self.token0_symbol@,
            token1_id: self.token1_id@,
            token1_symbol: self.token1_symbol@,
            fee: self.fee,
            decimals0: self.decimals0,
            decimals1: self.decimals1,
            raw_json: self.raw_json@,
            extra_data: self.extra_data@,
            tvl_usd: self.tvl_usd@,
        }
    }
}

/// The text of an optional string.
pub open spec fn opt_text(o: Option<String>) -> Option<Seq<char>> {
    match o {
        Some(s) => Some(s@),
        None => None,
    }
}

/// A subgraph response: its `data` member.
pub struct GraphResponse<T> {
    pub data: T,
}

/// A token as a pool names it.
#[derive(Debug, Clone)]
pub struct TokenPart {
    pub id: String,
    pub symbol: String,
    pub decimals: Option<String>,
}

/// The model of a [`TokenPart`].
pub struct TokenPartView {
    pub id: Seq<char>,
    pub symbol: Seq<char>,
    pub decimals: Option<Seq<char>>,
}

impl View for TokenPart {
    type V = TokenPartView;

    open spec fn view(&self) -> TokenPartView {
        TokenPartView { id: self.id@, symbol: self.symbol@, decimals: opt_text(self.decimals) }
    }
}

/// A concentrated-liquidity pool (Uniswap V3 and Aerodrome).
#[derive(Debug, Clone)]
#[allow(non_snake_case)]
pub struct V3Pool {
    pub id: String,
    pub token0: TokenPart,
    pub token1: TokenPart,
    pub feeTier: String,
    pub liquidity: String,
    pub totalValueLockedUSD: String,
}

/// The model of a [`V3Pool`].
#[allow(non_snake_case)]
pub struct V3PoolView {
    pub id: Seq<char>,
    pub token0: TokenPartView,
    pub token1: TokenPartView,
    pub feeTier: Seq<char>,
    pub liquidity: Seq<char>,
    pub totalValueLockedUSD: Seq<char>,
}

impl View for V3Pool {
    type V = V3PoolView;

    open spec fn view(&self) -> V3PoolView {
        V3PoolView {
            id: self.id@,
            token0: self.token0@,
            token1: self.token1@,
            feeTier: self.feeTier@,
            liquidity: self.liquidity@,
            totalValueLockedUSD: self.totalValueLockedUSD@,
        }
    }
}

/// The `data` of a V3 pools query.
pub struct V3Data {
    pub pools: Vec<V3Pool>,
}

/// A constant-product pair (Uniswap V2).
#[derive(Debug, Clone)]
#[allow(non_snake_case)]
pub struct V2Pair {
    pub id: String,
    pub token0: TokenPart,
    pub token1: TokenPart,
    pub reserveUSD: String,
}

/// The model of a [`V2Pair`].
#[allow(non_snake_case)]
pub struct V2PairView {
    pub id: Seq<char>,
    pub token0: TokenPartView,
    pub token1: TokenPartView,
    pub reserveUSD: Seq<char>,
}

impl View for V2Pair {
    type V = V2PairView;

    open spec fn view(&self) -> V2PairView {
        V2PairView { id: self.id@, token0: self.token0@, token1: self.token1@, reserveUSD: self.reserveUSD@ }
    }
}

/// The `data` of a V2 pairs query.
pub struct V2Data {
    pub pairs: Vec<V2Pair>,
}

/// A V4 pool (Uniswap V4 and PancakeSwap V4), with its hooks contract.
#[derive(Debug, Clone)]
#[allow(non_snake_case)]
pub struct V4Pool {
    pub id: String,
    pub token0: TokenPart,
    pub token1: TokenPart,
    pub feeTier: String,
    pub hooks: String,
    pub liquidity: String,
    pub totalValueLockedUSD: String,
}

/// The model of a [`V4Pool`].
#[allow(non_snake_case)]
pub struct V4PoolView {
    pub id: Seq<char>,
    pub token0: TokenPartView,
    pub token1: TokenPartView,
    pub feeTier: Seq<char>,
    pub hooks: Seq<char>,
    pub liquidity: Seq<char>,
    pub totalValueLockedUSD: Seq<char>,
}

impl View for V4Pool {
    type V = V4PoolView;

    open spec fn view(&self) -> V4PoolView {
        V4PoolView {
            id: self.id@,
            token0: self.token0@,
            token1: self.token1@,
            feeTier: self.feeTier@,
            hooks: self.hooks@,
            liquidity: self.liquidity@,
            totalValueLockedUSD: self.totalValueLockedUSD@,
        }
    }
}

/// The `data` of a V4 pools query.
pub struct V4Data {
    pub pools: Vec<V4Pool>,
}

/// A tick of a concentrated-liquidity pool.
#[derive(Debug, Clone)]
#[allow(non_snake_case)]
pub struct Tick {
    pub tickIdx: String,
    pub liquidityGross: String,
    pub liquidityNet: String,
    pub price0: String,
    pub price1: String,
}

/// The `data` of a ticks query.
pub struct TicksData {
    pub ticks: Vec<Tick>,
}

/// Different protocols are stored under different labels.
pub proof fn lemma_labels_distinct(a: Protocol, b: Protocol)
    requires
        a != b,
    ensures
        a.label() != b.label(),
{
    reveal_strlit("V3");
    reveal_strlit("Aerodrome-V3");
    reveal_strlit("V2");
    reveal_strlit("V4");
    reveal_strlit("Pancake-V4");
    if a.label() == b.label() {
        assert(a.label().len() == b.label().len());
        match a {
            Protocol::UniV3 => {
                assert(b.label()[1] == '3');
            },
            Protocol::UniV2 => {
                assert(b.label()[1] == '2');
            },
            Protocol::UniV4 => {
                assert(b.label()[1] == '4');
            },
            _ => {},
        }
    }
}

} // verus!
