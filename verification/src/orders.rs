//! The order registry and its state machine: locking funds creates a
//! Pending transfer order with a monotonically assigned id; a proof-gated
//! unlock completes it exactly once and splits the locked amount between
//! the recipient and the relayer, with no rounding leakage.

use vstd::prelude::*;
use vstd::bytes::spec_u64_to_le_bytes;
use crate::hashing::{
    sha256_of,
    sha256,
    push_bytes32,
    push_u64_le,
    zero_bytes32,
    make_zero_bytes32,
    is_zero_bytes32,
};

verus! {

/// Denominator of the fee rate: the rate is given in basis points.
pub const FEE_BPS_DENOMINATOR: u64 = 10000;

/// Default fee rate at bridge initialization, in basis points.
pub const DEFAULT_RELAYER_FEE_BPS: u16 = 10;

/// Default minimum relayer fee at bridge initialization.
pub const DEFAULT_MIN_RELAYER_FEE: u64 = 50000;

/// Lifecycle of a transfer order: Completed is terminal.
#[derive(Clone, Copy, Debug, PartialEq, Eq, Structural)]
pub enum OrderStatus {
    Pending,
    Completed,
}

/// A cross-chain transfer order.
#[derive(Clone, Copy)]
pub struct TransferOrder {
    pub order_id: u64,
    pub user: [u8; 32],
    pub source_chain: u8,
    pub target_chain: u8,
    pub token: [u8; 32],
    pub amount: u64,
    pub recipient: [u8; 32],
    pub relayer_fee: u64,
    pub created_at: u64,
    pub status: OrderStatus,
    pub proof_hash: [u8; 32],
    pub completed_by: [u8; 32],
    pub completed_at: u64,
}

/// Why a lock or an unlock was refused.
#[derive(Clone, Copy, Debug, PartialEq, Eq, Structural)]
pub enum BridgeError {
    BridgePaused,
    InvalidAmount,
    OrderNotFound,
    OrderNotPending,
    InvalidProof,
    InsufficientAmount,
}

/// Registry-wide configuration: the id counter and the fee policy.
#[derive(Clone, Copy)]
pub struct BridgeConfig {
    pub admin: [u8; 32],
    pub evm_chain_id: u64,
    pub paused: bool,
    pub next_order_id: u64,
    pub relayer_fee_bps: u16,
    pub min_relayer_fee: u64,
}

/// The token pair served by the bridge and the amount currently locked.
#[derive(Clone, Copy)]
pub struct TokenConfig {
    pub solana_mint: [u8; 32],
    pub evm_token: [u8; 20],
    pub is_native_solana: bool,
    pub total_locked: u64,
}

/// What an unlock pays out: the principal to the order's recipient and
/// the fee to the relayer who executed it.
#[derive(Clone, Copy, Debug, PartialEq, Eq)]
pub struct UnlockResult {
    pub recipient: [u8; 32],
    pub user_amount: u64,
    pub relayer: [u8; 32],
    pub relayer_fee: u64,
}

/// The percentage part of the fee: `amount * bps / 10000`, rounded down.
pub open spec fn spec_percentage_fee(amount: u64, fee_bps: u16) -> int {
    amount * fee_bps / (FEE_BPS_DENOMINATOR as int)
}

/// The relayer fee: the larger of the percentage fee and the configured
/// minimum.
pub open spec fn spec_relayer_fee(amount: u64, fee_bps: u16, min_fee: u64) -> int {
    if spec_percentage_fee(amount, fee_bps) >= min_fee {
        spec_percentage_fee(amount, fee_bps)
    } else {
        min_fee as int
    }
}

/// Computes the relayer fee for an amount under the current fee policy:
/// `max(amount * fee_bps / 10000, min_fee)`, exactly.
pub fn calculate_relayer_fee(amount: u64, fee_bps: u16, min_fee: u64) -> (fee: u64)
    requires
        fee_bps <= FEE_BPS_DENOMINATOR,
    ensures
        fee == spec_relayer_fee(amount, fee_bps, min_fee),
        fee >= min_fee,
        fee >= spec_percentage_fee(amount, fee_bps),
{
    proof {
        assert((amount as int) * (fee_bps as int) / 10000 <= amount as int) by (nonlinear_arith)
            requires
                fee_bps <= 10000,
                amount >= 0,
        ;
    }
    let percentage_fee = ((amount as u128) * (fee_bps as u128) / 10000) as u64;
    if percentage_fee >= min_fee {
        percentage_fee
    } else {
        min_fee
    }
}

/// Law: the fee split leaks nothing. Whenever the fee fits in the amount,
/// principal and fee recompose the amount exactly, and the fee is the
/// maximum of the percentage fee and the configured minimum.
pub proof fn lemma_fee_accounting(amount: u64, fee_bps: u16, min_fee: u64)
    requires
        spec_relayer_fee(amount, fee_bps, min_fee) <= amount,
    ensures
        (amount - spec_relayer_fee(amount, fee_bps, min_fee)) + spec_relayer_fee(
            amount,
            fee_bps,
            min_fee,
        ) == amount,
        spec_relayer_fee(amount, fee_bps, min_fee) >= min_fee,
        spec_relayer_fee(amount, fee_bps, min_fee) >= spec_percentage_fee(amount, fee_bps),
{
}

/// The serialized form of an order that its hash commits to.
pub open spec fn spec_order_message(o: TransferOrder) -> Seq<u8> {
    spec_u64_to_le_bytes(o.order_id) + o.user@ + seq![o.source_chain] + o.token@
        + spec_u64_to_le_bytes(o.amount) + o.recipient@ + spec_u64_to_le_bytes(o.relayer_fee)
        + spec_u64_to_le_bytes(o.created_at)
}

/// Hashes an order's committed fields, little-endian integers in fixed
/// order.
pub fn hash_order(order: &TransferOrder) -> (h: [u8; 32])
    ensures
        h@ == sha256_of(spec_order_message(*order)),
{
    let mut buf: Vec<u8> = Vec::new();
    push_u64_le(&mut buf, order.order_id);
    push_bytes32(&mut buf, &order.user);
    buf.push(order.source_chain);
    push_bytes32(&mut buf, &order.token);
    push_u64_le(&mut buf, order.amount);
    push_bytes32(&mut buf, &order.recipient);
    push_u64_le(&mut buf, order.relayer_fee);
    push_u64_le(&mut buf, order.created_at);
    assert(buf@ =~= spec_order_message(*order));
    sha256(buf.as_slice())
}

/// Sum of the amounts of the orders still Pending: the value the vault
/// must hold.
pub open spec fn pending_total(s: Seq<TransferOrder>) -> int
    decreases s.len(),
{
    if s.len() == 0 {
        0
    } else {
        pending_total(s.drop_last()) + (if s.last().status == OrderStatus::Pending {
            s.last().amount as int
        } else {
            0
        })
    }
}

proof fn lemma_pending_total_push(s: Seq<TransferOrder>, o: TransferOrder)
    ensures
        pending_total(s.push(o)) == pending_total(s) + (if o.status == OrderStatus::Pending {
            o.amount as int
        } else {
            0
        }),
{
    assert(s.push(o).last() == o);
    assert(s.push(o).drop_last() =~= s);
}

proof fn lemma_pending_total_update(s: Seq<TransferOrder>, i: int, o: TransferOrder)
    requires
        0 <= i < s.len(),
    ensures
        pending_total(s.update(i, o)) == pending_total(s) - (if s[i].status
            == OrderStatus::Pending {
            s[i].amount as int
        } else {
            0
        }) + (if o.status == OrderStatus::Pending {
            o.amount as int
        } else {
            0
        }),
    decreases s.len(),
{
    if i == s.len() - 1 {
        assert(s.update(i, o).last() == o);
        assert(s.update(i, o).drop_last() =~= s.drop_last());
    } else {
        assert(s.update(i, o).last() == s.last());
        assert(s.update(i, o).drop_last() =~= s.drop_last().update(i, o));
        lemma_pending_total_update(s.drop_last(), i, o);
    }
}

proof fn lemma_pending_total_bounds(s: Seq<TransferOrder>, i: int)
    requires
        0 <= i < s.len(),
        s[i].status == OrderStatus::Pending,
    ensures
        pending_total(s) >= s[i].amount,
    decreases s.len(),
{
    lemma_pending_total_nonneg(s.drop_last());
    if i == s.len() - 1 {
    } else {
        assert(s.drop_last()[i] == s[i]);
        lemma_pending_total_bounds(s.drop_last(), i);
    }
}

proof fn lemma_pending_total_nonneg(s: Seq<TransferOrder>)
    ensures
        pending_total(s) >= 0,
    decreases s.len(),
{
    if s.len() > 0 {
        lemma_pending_total_nonneg(s.drop_last());
    }
}

/// Creates the registry-wide configuration: live, ids starting at 1,
/// the default fee policy.
pub fn initialize_bridge(admin: [u8; 32], evm_chain_id: u64) -> (config: BridgeConfig)
    ensures
        config.admin == admin,
        config.evm_chain_id == evm_chain_id,
        !config.paused,
        config.next_order_id == 1,
        config.relayer_fee_bps == DEFAULT_RELAYER_FEE_BPS,
        config.min_relayer_fee == DEFAULT_MIN_RELAYER_FEE,
{
    BridgeConfig {
        admin,
        evm_chain_id,
        paused: false,
        next_order_id: 1,
        relayer_fee_bps: DEFAULT_RELAYER_FEE_BPS,
        min_relayer_fee: DEFAULT_MIN_RELAYER_FEE,
    }
}

/// Registers the token pair the bridge serves, with nothing locked yet.
pub fn register_token_pair(
    solana_mint: [u8; 32],
    evm_token: [u8; 20],
    is_native_solana: bool,
) -> (token: TokenConfig)
    ensures
        token.solana_mint == solana_mint,
        token.evm_token == evm_token,
        token.is_native_solana == is_native_solana,
        token.total_locked == 0,
{
    TokenConfig { solana_mint, evm_token, is_native_solana, total_locked: 0 }
}

/// The order registry: configuration, token accounting, and the order
/// records it exclusively owns.
pub struct Bridge {
    pub config: BridgeConfig,
    pub token: TokenConfig,
    pub orders: Vec<TransferOrder>,
}

impl Bridge {
    /// Well-formedness: the fee rate is at most 100%, ids are assigned
    /// densely from 1 so the counter always points one past the last
    /// order, and the locked total is exactly the sum of the Pending
    /// orders' amounts.
    pub open spec fn wf(self) -> bool {
        &&& self.config.relayer_fee_bps <= FEE_BPS_DENOMINATOR
        &&& self.config.next_order_id == self.orders@.len() + 1
        &&& forall|i: int|
            0 <= i < self.orders@.len() ==> (#[trigger] self.orders@[i]).order_id == i + 1
        &&& self.token.total_locked == pending_total(self.orders@)
    }

    /// A lock of this amount can succeed: the bridge is live, the amount
    /// is positive and covers the fee, and neither the locked total nor
    /// the id counter overflows.
    pub open spec fn spec_lock_ok(self, amount: u64) -> bool {
        &&& !self.config.paused
        &&& amount > 0
        &&& spec_relayer_fee(amount, self.config.relayer_fee_bps, self.config.min_relayer_fee)
            <= amount
        &&& self.token.total_locked + amount <= u64::MAX
        &&& self.config.next_order_id + 1 <= u64::MAX
    }

    /// The order a successful lock appends.
    pub open spec fn spec_order_created(
        self,
        o: TransferOrder,
        user: [u8; 32],
        amount: u64,
        recipient: [u8; 32],
        now: u64,
    ) -> bool {
        &&& o.order_id == self.config.next_order_id
        &&& o.user == user
        &&& o.source_chain == 0
        &&& o.target_chain == 1
        &&& o.token == self.token.solana_mint
        &&& o.amount == amount
        &&& o.recipient == recipient
        &&& o.relayer_fee == spec_relayer_fee(
            amount,
            self.config.relayer_fee_bps,
            self.config.min_relayer_fee,
        )
        &&& o.created_at == now
        &&& o.status == OrderStatus::Pending
        &&& o.proof_hash@ == zero_bytes32()
        &&& o.completed_by@ == zero_bytes32()
        &&& o.completed_at == 0
    }

    /// How a successful lock relates the new registry state to the old.
    pub open spec fn spec_lock_post(
        pre: Bridge,
        post: Bridge,
        user: [u8; 32],
        amount: u64,
        recipient: [u8; 32],
        now: u64,
    ) -> bool {
        &&& post.orders@.len() == pre.orders@.len() + 1
        &&& post.orders@.drop_last() == pre.orders@
        &&& pre.spec_order_created(post.orders@.last(), user, amount, recipient, now)
        &&& post.config == (BridgeConfig {
            next_order_id: (pre.config.next_order_id + 1) as u64,
            ..pre.config
        })
        &&& post.token == (TokenConfig {
            total_locked: (pre.token.total_locked + amount) as u64,
            ..pre.token
        })
    }

    /// Creates a live registry over one token pair, with the default fee
    /// policy and an empty order book.
    pub fn initialize(
        admin: [u8; 32],
        evm_chain_id: u64,
        solana_mint: [u8; 32],
        evm_token: [u8; 20],
        is_native_solana: bool,
    ) -> (b: Bridge)
        ensures
            b.wf(),
            b.config.admin == admin,
            b.config.evm_chain_id == evm_chain_id,
            !b.config.paused,
            b.config.next_order_id == 1,
            b.config.relayer_fee_bps == DEFAULT_RELAYER_FEE_BPS,
            b.config.min_relayer_fee == DEFAULT_MIN_RELAYER_FEE,
            b.token.solana_mint == solana_mint,
            b.token.evm_token == evm_token,
            b.token.is_native_solana == is_native_solana,
            b.token.total_locked == 0,
            b.orders@.len() == 0,
    {
        let config = initialize_bridge(admin, evm_chain_id);
        let token = register_token_pair(solana_mint, evm_token, is_native_solana);
        Bridge { config, token, orders: Vec::new() }
    }

    /// Locks an amount for transfer: computes the fee under the current
    /// policy, appends a Pending order under the next id, and advances
    /// the counter. Returns the new order's id.
    pub fn lock_tokens(
        &mut self,
        user: [u8; 32],
        amount: u64,
        recipient: [u8; 32],
        now: u64,
    ) -> (r: Result<u64, BridgeError>)
        requires
            old(self).wf(),
        ensures
            final(self).wf(),
            r is Ok <==> old(self).spec_lock_ok(amount),
            r matches Ok(id) ==> id == old(self).config.next_order_id && Bridge::spec_lock_post(
                *old(self),
                *final(self),
                user,
                amount,
                recipient,
                now,
            ),
            r == Err::<u64, BridgeError>(BridgeError::BridgePaused) <==> old(self).config.paused,
            r == Err::<u64, BridgeError>(BridgeError::InsufficientAmount) <==> (!old(
                self,
            ).config.paused && amount > 0 && spec_relayer_fee(
                amount,
                old(self).config.relayer_fee_bps,
                old(self).config.min_relayer_fee,
            ) > amount),
            r == Err::<u64, BridgeError>(BridgeError::InvalidAmount) <==> (!old(self).config.paused
                && (amount == 0 || (spec_relayer_fee(
                amount,
                old(self).config.relayer_fee_bps,
                old(self).config.min_relayer_fee,
            ) <= amount && (old(self).token.total_locked + amount > u64::MAX || old(
                self,
            ).config.next_order_id + 1 > u64::MAX)))),
            r is Err ==> *final(self) == *old(self),
    {
        if self.config.paused {
            return Err(BridgeError::BridgePaused);
        }
        if amount == 0 {
            return Err(BridgeError::InvalidAmount);
        }
        let relayer_fee = calculate_relayer_fee(
            amount,
            self.config.relayer_fee_bps,
            self.config.min_relayer_fee,
        );
        if relayer_fee > amount {
            return Err(BridgeError::InsufficientAmount);
        }
        if self.token.total_locked > u64::MAX - amount {
            return Err(BridgeError::InvalidAmount);
        }
        if self.config.next_order_id > u64::MAX - 1 {
            return Err(BridgeError::InvalidAmount);
        }
        let order = TransferOrder {
            order_id: self.config.next_order_id,
            user,
            source_chain: 0,
            target_chain: 1,
            token: self.token.solana_mint,
            amount,
            recipient,
            relayer_fee,
            created_at: now,
            status: OrderStatus::Pending,
            proof_hash: make_zero_bytes32(),
            completed_by: make_zero_bytes32(),
            completed_at: 0,
        };
        let id = self.config.next_order_id;
        proof {
            lemma_pending_total_push(self.orders@, order);
        }
        self.orders.push(order);
        self.config.next_order_id = self.config.next_order_id + 1;
        self.token.total_locked = self.token.total_locked + amount;
        proof {
            assert(final(self).orders@.drop_last() =~= old(self).orders@);
        }
        Ok(id)
    }

    /// An unlock of this order with this proof hash can succeed: the
    /// bridge is live, the order exists and is still Pending, the proof
    /// hash is not the placeholder, and the fee recomputed under the
    /// current policy fits in the order's amount.
    pub open spec fn spec_can_unlock(self, order_id: u64, proof_hash: [u8; 32]) -> bool {
        &&& !self.config.paused
        &&& 1 <= order_id < self.config.next_order_id
        &&& self.orders@[order_id - 1].status == OrderStatus::Pending
        &&& proof_hash@ != zero_bytes32()
        &&& spec_relayer_fee(
            self.orders@[order_id - 1].amount,
            self.config.relayer_fee_bps,
            self.config.min_relayer_fee,
        ) <= self.orders@[order_id - 1].amount
    }

    /// How a successful unlock relates the new registry state to the old:
    /// the one order is marked Completed with the completer's identity
    /// and time, and its amount leaves the locked total.
    pub open spec fn spec_unlock_post(
        pre: Bridge,
        post: Bridge,
        order_id: u64,
        proof_hash: [u8; 32],
        relayer: [u8; 32],
        now: u64,
    ) -> bool {
        &&& post.orders@ == pre.orders@.update(
            order_id - 1,
            TransferOrder {
                status: OrderStatus::Completed,
                proof_hash,
                completed_by: relayer,
                completed_at: now,
                ..pre.orders@[order_id - 1]
            },
        )
        &&& post.config == pre.config
        &&& post.token == (TokenConfig {
            total_locked: (pre.token.total_locked - pre.orders@[order_id - 1].amount) as u64,
            ..pre.token
        })
    }

    /// Unlocks a Pending order: one atomic read-check-write. The fee is
    /// recomputed from the current fee policy, the order is completed
    /// exactly once, and the payout splits the order's amount between the
    /// recipient and the relayer with nothing left over.
    pub fn unlock_tokens(
        &mut self,
        order_id: u64,
        proof_hash: [u8; 32],
        relayer: [u8; 32],
        now: u64,
    ) -> (r: Result<UnlockResult, BridgeError>)
        requires
            old(self).wf(),
        ensures
            final(self).wf(),
            r is Ok <==> old(self).spec_can_unlock(order_id, proof_hash),
            r matches Ok(out) ==> {
                let o = old(self).orders@[order_id - 1];
                let fee = spec_relayer_fee(
                    o.amount,
                    old(self).config.relayer_fee_bps,
                    old(self).config.min_relayer_fee,
                );
                &&& Bridge::spec_unlock_post(
                    *old(self),
                    *final(self),
                    order_id,
                    proof_hash,
                    relayer,
                    now,
                )
                &&& out.recipient == o.recipient
                &&& out.relayer == relayer
                &&& out.relayer_fee == fee
                &&& out.user_amount == o.amount - fee
                &&& out.user_amount + out.relayer_fee == o.amount
            },
            r == Err::<UnlockResult, BridgeError>(BridgeError::BridgePaused) <==> old(
                self,
            ).config.paused,
            r == Err::<UnlockResult, BridgeError>(BridgeError::OrderNotFound) <==> (!old(
                self,
            ).config.paused && !(1 <= order_id < old(self).config.next_order_id)),
            r == Err::<UnlockResult, BridgeError>(BridgeError::OrderNotPending) <==> (!old(
                self,
            ).config.paused && 1 <= order_id < old(self).config.next_order_id && old(
                self,
            ).orders@[order_id - 1].status != OrderStatus::Pending),
            r == Err::<UnlockResult, BridgeError>(BridgeError::InvalidProof) <==> (!old(
                self,
            ).config.paused && 1 <= order_id < old(self).config.next_order_id && old(
                self,
            ).orders@[order_id - 1].status == OrderStatus::Pending && proof_hash@
                == zero_bytes32()),
            r == Err::<UnlockResult, BridgeError>(BridgeError::InsufficientAmount) <==> (!old(
                self,
            ).config.paused && 1 <= order_id < old(self).config.next_order_id && old(
                self,
            ).orders@[order_id - 1].status == OrderStatus::Pending && proof_hash@
                != zero_bytes32() && spec_relayer_fee(
                old(self).orders@[order_id - 1].amount,
                old(self).config.relayer_fee_bps,
                old(self).config.min_relayer_fee,
            ) > old(self).orders@[order_id - 1].amount),
            r is Err ==> *final(self) == *old(self),
    {
        if self.config.paused {
            return Err(BridgeError::BridgePaused);
        }
        if order_id < 1 || order_id >= self.config.next_order_id {
            return Err(BridgeError::OrderNotFound);
        }
        let n = self.orders.len();
        assert(order_id - 1 < n);
        let idx = (order_id - 1) as usize;
        assert(idx == order_id - 1);
        let order = self.orders[idx];
        if order.status != OrderStatus::Pending {
            return Err(BridgeError::OrderNotPending);
        }
        if is_zero_bytes32(&proof_hash) {
            return Err(BridgeError::InvalidProof);
        }
        let total_amount = order.amount;
        let relayer_fee = calculate_relayer_fee(
            total_amount,
            self.config.relayer_fee_bps,
            self.config.min_relayer_fee,
        );
        if relayer_fee > total_amount {
            return Err(BridgeError::InsufficientAmount);
        }
        let user_amount = total_amount - relayer_fee;
        let completed = TransferOrder {
            status: OrderStatus::Completed,
            proof_hash,
            completed_by: relayer,
            completed_at: now,
            ..order
        };
        proof {
            lemma_pending_total_bounds(self.orders@, idx as int);
            lemma_pending_total_update(self.orders@, idx as int, completed);
        }
        self.orders[idx] = completed;
        self.token.total_locked = self.token.total_locked - total_amount;
        Ok(UnlockResult { recipient: order.recipient, user_amount, relayer, relayer_fee })
    }
}

/// Law: an order is completed exactly once. After a successful unlock of
/// an order, no further unlock of the same order can succeed, whatever
/// proof hash it submits.
pub proof fn lemma_unlock_exactly_once(
    pre: Bridge,
    post: Bridge,
    order_id: u64,
    h1: [u8; 32],
    h2: [u8; 32],
    relayer: [u8; 32],
    now: u64,
)
    requires
        pre.wf(),
        pre.spec_can_unlock(order_id, h1),
        Bridge::spec_unlock_post(pre, post, order_id, h1, relayer, now),
    ensures
        !post.spec_can_unlock(order_id, h2),
{
    assert(post.orders@[order_id - 1].status == OrderStatus::Completed);
}

/// Law: lock then unlock. An order created by a successful lock is
/// Pending and can be unlocked under its id with any non-placeholder
/// proof hash, while the fee policy is unchanged.
pub proof fn lemma_lock_enables_unlock(
    pre: Bridge,
    post: Bridge,
    user: [u8; 32],
    amount: u64,
    recipient: [u8; 32],
    now: u64,
    proof_hash: [u8; 32],
)
    requires
        pre.wf(),
        pre.spec_lock_ok(amount),
        Bridge::spec_lock_post(pre, post, user, amount, recipient, now),
        proof_hash@ != zero_bytes32(),
    ensures
        post.spec_can_unlock(pre.config.next_order_id, proof_hash),
{
    let id = pre.config.next_order_id;
    assert(id - 1 == pre.orders@.len());
    assert(post.orders@[id - 1] == post.orders@.last());
    assert(post.orders@[id - 1].status == OrderStatus::Pending);
}

} // verus!
