//! A read-only binding for one pool contract: each accessor encodes a call,
//! submits it through an injected provider, and decodes the reply.
use vstd::prelude::*;
use vstd::arithmetic::power2::{lemma2_to64, pow2};
use crate::abi::{
    decode_slot0_tick_word, decode_tick_spacing_word, keccak256_text, keccak_of_text,
    be_value, lemma_be_value_extremes, lemma_word_split, pow256, signed_word, slot0_reply_ok, tick_spacing_reply_ok,
    word, Address,
};

verus! {

/// The view functions of the pool contract that this binding calls.
#[derive(Clone, Copy, Debug, PartialEq, Eq)]
pub enum PoolFunction {
    /// `tickSpacing() returns (int24)`
    TickSpacing,
    /// `slot0() returns (uint160, int24, uint16, uint16, uint16, uint8, bool)`
    Slot0,
}

impl PoolFunction {
    /// The canonical signature from which the selector is derived.
    pub open spec fn spec_signature(self) -> Seq<char> {
        match self {
            PoolFunction::TickSpacing => "tickSpacing()"@,
            PoolFunction::Slot0 => "slot0()"@,
        }
    }

    /// The call data: the first four bytes of the signature's Keccak-256
    /// digest. Neither function takes arguments.
    pub open spec fn spec_call_data(self) -> Seq<u8> {
        keccak_of_text(self.spec_signature()).subrange(0, 4)
    }

    pub fn signature(&self) -> (r: &'static str)
        ensures
            r@ == self.spec_signature(),
    {
        match self {
            PoolFunction::TickSpacing => "tickSpacing()",
            PoolFunction::Slot0 => "slot0()",
        }
    }

    /// Encodes a call of this function.
    pub fn call_data(&self) -> (r: Vec<u8>)
        ensures
            r@ == self.spec_call_data(),
    {
        let digest = keccak256_text(self.signature());
        let mut out: Vec<u8> = Vec::new();
        let mut i: usize = 0;
        while i < 4
            invariant
                i <= 4,
                digest@.len() == 32,
                out@ == digest@.subrange(0, i as int),
            decreases 4 - i,
        {
            out.push(digest[i]);
            i = i + 1;
        }
        out
    }
}

/// Why a call of the pool contract failed.
#[derive(Clone, Debug, PartialEq, Eq)]
pub enum CallError {
    /// The provider could not complete the call; its message is kept.
    Transport(PoolFunction, String),
    /// The reply does not have the shape that the function declares.
    Decode(PoolFunction),
    /// The decoded tick value lies outside the 24-bit signed range.
    Narrowing(PoolFunction),
}

/// Something that can submit a read-only call to a contract and return the
/// raw reply, or a description of why the transport failed.
pub trait CallProvider {
    fn submit_call(&self, to: &Address, data: &Vec<u8>) -> Result<Vec<u8>, String>;
}

/// A signed value fits the 24-bit range of ticks and tick spacings.
pub open spec fn fits_tick(v: int) -> bool {
    -pow2(23) <= v < pow2(23)
}

/// What narrowing a decoded word to a tick yields.
pub open spec fn narrow_outcome(function: PoolFunction, w: Seq<u8>) -> Result<i64, CallError> {
    if fits_tick(signed_word(w)) {
        Ok(signed_word(w) as i64)
    } else {
        Err(CallError::Narrowing(function))
    }
}

/// What `tickSpacing()` yields for a given provider outcome.
pub open spec fn tick_spacing_outcome(reply: Result<Vec<u8>, String>) -> Result<i64, CallError> {
    match reply {
        Err(m) => Err(CallError::Transport(PoolFunction::TickSpacing, m)),
        Ok(d) => if tick_spacing_reply_ok(d@) {
            narrow_outcome(PoolFunction::TickSpacing, word(d@, 0))
        } else {
            Err(CallError::Decode(PoolFunction::TickSpacing))
        },
    }
}

/// What `slot0()`'s tick yields for a given provider outcome.
pub open spec fn current_tick_outcome(reply: Result<Vec<u8>, String>) -> Result<i64, CallError> {
    match reply {
        Err(m) => Err(CallError::Transport(PoolFunction::Slot0, m)),
        Ok(d) => if slot0_reply_ok(d@) {
            narrow_outcome(PoolFunction::Slot0, word(d@, 1))
        } else {
            Err(CallError::Decode(PoolFunction::Slot0))
        },
    }
}

/// Narrows a decoded 256-bit signed word to a tick, failing with a narrowing
/// error of `function` when its value lies outside the 24-bit signed range.
pub fn narrow_tick(function: PoolFunction, w: &[u8; 32]) -> (r: Result<i64, CallError>)
    ensures
        r is Ok <==> fits_tick(signed_word(w@)),
        r is Ok ==> r->Ok_0 == signed_word(w@),
        r == narrow_outcome(function, w@),
{
    proof {
        lemma2_to64();
        lemma_word_split(w@);
        lemma_be_value_extremes(w@.subrange(0, 29));
    }
    let ghost prefix = w@.subrange(0, 29);
    assert(pow256(32) / 2 == pow256(29) * 8388608);
    let negative = w[29] >= 128;
    let extension: u8 = if negative { 255 } else { 0 };
    let mut i: usize = 0;
    while i < 29
        invariant
            i <= 29,
            forall|j: int| 0 <= j < i ==> prefix[j] == extension,
            prefix == w@.subrange(0, 29),
            negative == (w@[29] >= 128),
            extension == (if negative { 255u8 } else { 0u8 }),
        decreases 29 - i,
    {
        if w[i] != extension {
            assert(prefix[i as int] != extension);
            proof {
                lemma2_to64();
                lemma_word_split(w@);
                lemma_be_value_extremes(prefix);
                assert(pow256(32) / 2 == pow256(29) * 8388608);
                if negative && be_value(prefix) + 1 == pow256(29) {
                    assert(prefix[i as int] == 0xff);
                }
                if !negative && be_value(prefix) == 0 {
                    assert(prefix[i as int] == 0);
                }
            }
            assert(if negative {
                be_value(prefix) + 1 != pow256(29)
            } else {
                be_value(prefix) != 0
            });
            return Err(CallError::Narrowing(function));
        }
        i = i + 1;
    }
    assert(if negative {
        be_value(prefix) + 1 == pow256(29)
    } else {
        be_value(prefix) == 0
    });
    let low: i64 = (w[29] as i64) * 65536 + (w[30] as i64) * 256 + (w[31] as i64);
    let v: i64 = if negative { low - 16777216 } else { low };
    Ok(v)
}

/// Turns the provider's outcome for a `tickSpacing()` call into the spacing.
pub fn tick_spacing_from_reply(reply: Result<Vec<u8>, String>) -> (r: Result<i64, CallError>)
    ensures
        r == tick_spacing_outcome(reply),
{
    match reply {
        Err(m) => Err(CallError::Transport(PoolFunction::TickSpacing, m)),
        Ok(d) => match decode_tick_spacing_word(d.as_slice()) {
            Some(w) => narrow_tick(PoolFunction::TickSpacing, &w),
            None => Err(CallError::Decode(PoolFunction::TickSpacing)),
        },
    }
}

/// Turns the provider's outcome for a `slot0()` call into the current tick,
/// dropping the other six fields.
pub fn current_tick_from_reply(reply: Result<Vec<u8>, String>) -> (r: Result<i64, CallError>)
    ensures
        r == current_tick_outcome(reply),
{
    match reply {
        Err(m) => Err(CallError::Transport(PoolFunction::Slot0, m)),
        Ok(d) => match decode_slot0_tick_word(d.as_slice()) {
            Some(w) => narrow_tick(PoolFunction::Slot0, &w),
            None => Err(CallError::Decode(PoolFunction::Slot0)),
        },
    }
}

/// A binding of one pool address to a provider. It holds no other state:
/// every accessor that reads the chain makes one fresh call.
pub struct UniswapV3PoolContract<P> {
    address: Address,
    provider: P,
}

impl<P: CallProvider> UniswapV3PoolContract<P> {
    /// The address of the pool this binding calls.
    pub closed spec fn spec_address(&self) -> Address {
        self.address
    }

    pub fn new(address: Address, provider: P) -> (r: Result<Self, CallError>)
        ensures
            r is Ok,
            r->Ok_0.spec_address() == address,
    {
        Ok(UniswapV3PoolContract { address, provider })
    }

    /// The bound address; the provider is not called.
    pub fn address(&self) -> (r: &Address)
        ensures
            *r == self.spec_address(),
    {
        &self.address
    }

    /// The provider that calls go through.
    pub closed spec fn spec_provider(&self) -> P {
        self.provider
    }

    pub fn provider(&self) -> (r: &P)
        ensures
            *r == self.spec_provider(),
    {
        &self.provider
    }

    /// The target and call data of a call of `function` on this pool.
    pub fn request(&self, function: PoolFunction) -> (r: (Address, Vec<u8>))
        ensures
            r.0 == self.spec_address(),
            r.1@ == function.spec_call_data(),
    {
        (self.address, function.call_data())
    }

    /// One call of `tickSpacing()`; the result is one that
    /// `tick_spacing_from_reply` gives for some provider outcome.
    pub fn tick_spacing(&self) -> (r: Result<i64, CallError>)
        ensures
            exists|reply: Result<Vec<u8>, String>| r == #[trigger] tick_spacing_outcome(reply),
            r is Ok ==> fits_tick(r->Ok_0 as int),
    {
        let (to, data) = self.request(PoolFunction::TickSpacing);
        let reply = self.provider.submit_call(&to, &data);
        let ghost g = reply;
        let r = tick_spacing_from_reply(reply);
        assert(r == tick_spacing_outcome(g));
        r
    }

    /// One call of `slot0()`, keeping only the current tick.
    pub fn current_tick(&self) -> (r: Result<i64, CallError>)
        ensures
            exists|reply: Result<Vec<u8>, String>| r == #[trigger] current_tick_outcome(reply),
            r is Ok ==> fits_tick(r->Ok_0 as int),
    {
        let (to, data) = self.request(PoolFunction::Slot0);
        let reply = self.provider.submit_call(&to, &data);
        let ghost g = reply;
        let r = current_tick_from_reply(reply);
        assert(r == current_tick_outcome(g));
        r
    }
}

/// A provider's transport failure comes back as a transport error of the
/// called function, with the provider's message unchanged.
pub proof fn transport_failure_is_reported(m: String)
    ensures
        tick_spacing_outcome(Err(m)) == Err::<i64, CallError>(CallError::Transport(PoolFunction::TickSpacing, m)),
        current_tick_outcome(Err(m)) == Err::<i64, CallError>(CallError::Transport(PoolFunction::Slot0, m)),
{
}

/// A reply shorter than the declared output tuple is a decode error, never a
/// value.
pub proof fn short_reply_is_decode_error(d: Vec<u8>)
    ensures
        d@.len() < 32 ==> tick_spacing_outcome(Ok(d)) == Err::<i64, CallError>(CallError::Decode(PoolFunction::TickSpacing)),
        d@.len() < 7 * 32 ==> current_tick_outcome(Ok(d)) == Err::<i64, CallError>(CallError::Decode(PoolFunction::Slot0)),
{
}

/// A reply of the right shape whose tick word lies outside the 24-bit signed
/// range is a narrowing error, never a truncated value.
pub proof fn out_of_range_tick_is_narrowing_error(d: Vec<u8>)
    ensures
        tick_spacing_reply_ok(d@) && !fits_tick(signed_word(word(d@, 0)))
            ==> tick_spacing_outcome(Ok(d)) == Err::<i64, CallError>(CallError::Narrowing(PoolFunction::TickSpacing)),
        slot0_reply_ok(d@) && !fits_tick(signed_word(word(d@, 1)))
            ==> current_tick_outcome(Ok(d)) == Err::<i64, CallError>(CallError::Narrowing(PoolFunction::Slot0)),
{
}

} // verus!
