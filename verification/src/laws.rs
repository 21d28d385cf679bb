//! System-level laws of the instruction machine.
//!
//! Each proof function here states a property that spans several operations
//! or several calls: re-creating a pool, conservation of deposited balances,
//! and the shape of a user's stream list after repeated registrations. An
//! instruction that ends in an error plans no effects, and the environment
//! applies effects atomically, so every error case below also says "nothing
//! changed".

use vstd::prelude::*;

use crate::accounts::AccountHandleV;
use crate::cpi::{pda_key, pda_of};
use crate::error::StepError;
use crate::keys::{is_key, is_null_key, null_key_seq};
use crate::processor::{
    spec_check_vacant_pool, spec_deposit, spec_init_pool, DepositPlanV, InitPoolPlanV,
    TransferRequestV,
};
use crate::state::{
    lemma_pool_roundtrip, spec_decode_pool, spec_encode_pool, spec_relink_stream, PoolV, StreamV,
};

verus! {

// ---------------------------------------------------------------------------
// Re-creating a pool
// ---------------------------------------------------------------------------

/// Creating a pool is not idempotent. If one `InitPool` call succeeded, then
/// a second call with the same seed — however well-formed: the deployer signs
/// again, the same program-state record is presented, and every handle sits
/// at its derived address — fails with `AlreadyInitialized`, because the same
/// seed derives the same slot and that slot now holds an initialized pool
/// record. The failing call returns no plan, so the first call's state is
/// untouched.
pub proof fn lemma_init_pool_not_idempotent(
    deployer1: AccountHandleV,
    state1: AccountHandleV,
    pool1: AccountHandleV,
    token1: AccountHandleV,
    mint1: AccountHandleV,
    deployer2: AccountHandleV,
    state2: AccountHandleV,
    pool2: AccountHandleV,
    token2: AccountHandleV,
    mint2: AccountHandleV,
    program_id: Seq<u8>,
    seed: Seq<u8>,
    token_rent1: u64,
    pool_rent1: u64,
    token_rent2: u64,
    pool_rent2: u64,
    plan: InitPoolPlanV,
)
    requires
        spec_init_pool(
            deployer1,
            state1,
            pool1,
            token1,
            mint1,
            program_id,
            seed,
            token_rent1,
            pool_rent1,
        ) == Ok::<InitPoolPlanV, StepError>(plan),
        mint1.wf(),
        is_key(seed),
        // The second call presents the slot the first call's plan wrote:
        pool2.key == pool1.key,
        pool2.data == plan.pool_write.record,
        // and is otherwise as legitimate as the first:
        state2.key == state1.key,
        state2.data == state1.data,
        deployer2.is_signer,
        deployer2.key == deployer1.key,
        token2.key == token1.key,
        mint2.owner == mint1.owner,
    ensures
        spec_init_pool(
            deployer2,
            state2,
            pool2,
            token2,
            mint2,
            program_id,
            seed,
            token_rent2,
            pool_rent2,
        ) == Err::<InitPoolPlanV, StepError>(StepError::AlreadyInitialized),
        pool1.key == pda_key(seed, program_id),
{
    let written = PoolV {
        is_initialized: true,
        mint_pubkey: mint1.key,
        pda_seed: seed,
        head_user: null_key_seq(),
    };
    assert(plan.pool_write.record == spec_encode_pool(written));
    lemma_pool_roundtrip(written);
    assert(spec_decode_pool(pool2.data) == Some(written));
    assert(spec_check_vacant_pool(pool2.data) == Some(StepError::AlreadyInitialized));
}

// ---------------------------------------------------------------------------
// Address policy
// ---------------------------------------------------------------------------

/// An `InitPool` call whose pool handle does not sit at the address derived
/// from the supplied seed fails with `AddressMismatch` — and so creates
/// nothing — whenever the checks ahead of it (program-state address, record
/// decode, deployer authority, custody address) pass.
pub proof fn lemma_init_pool_address_policy(
    deployer: AccountHandleV,
    state_account: AccountHandleV,
    pool_account: AccountHandleV,
    token_account: AccountHandleV,
    mint: AccountHandleV,
    program_id: Seq<u8>,
    seed: Seq<u8>,
    token_rent_lamports: u64,
    pool_rent_lamports: u64,
)
    requires
        pda_of(crate::processor::spec_program_state_seed(), program_id) is Some,
        state_account.key == pda_key(crate::processor::spec_program_state_seed(), program_id),
        crate::state::spec_decode_program_state(state_account.data) matches Some(st) && (
        deployer.is_signer && deployer.key == st.deployer_pubkey),
        pda_of(crate::processor::spec_token_account_seed(), program_id) is Some,
        token_account.key == pda_key(crate::processor::spec_token_account_seed(), program_id),
        pda_of(seed, program_id) is None || pool_account.key != pda_key(seed, program_id),
    ensures
        spec_init_pool(
            deployer,
            state_account,
            pool_account,
            token_account,
            mint,
            program_id,
            seed,
            token_rent_lamports,
            pool_rent_lamports,
        ) == Err::<InitPoolPlanV, StepError>(StepError::AddressMismatch),
{
}

// ---------------------------------------------------------------------------
// Deposit authority
// ---------------------------------------------------------------------------

/// A deposit whose depositor handle carries no signature proof fails with
/// `MissingAuthority`, whatever else the call presents; no plan is returned,
/// so no balance changes.
pub proof fn lemma_deposit_requires_authority(
    depositor: AccountHandleV,
    depositor_token_account: AccountHandleV,
    user_account: AccountHandleV,
    pool_account: AccountHandleV,
    program_token_account: AccountHandleV,
    token_program: AccountHandleV,
    tail_user: Option<AccountHandleV>,
    program_id: Seq<u8>,
    amount: u64,
)
    requires
        !depositor.is_signer,
    ensures
        spec_deposit(
            depositor,
            depositor_token_account,
            user_account,
            pool_account,
            program_token_account,
            token_program,
            tail_user,
            program_id,
            amount,
        ) == Err::<DepositPlanV, StepError>(StepError::MissingAuthority),
{
}

/// A successful deposit re-persists the depositor's record with the balance
/// grown by exactly the amount, into the depositor's own slot, and changes
/// nothing else about it. This is the ledger event that
/// [`lemma_deposit_conservation`] sums: the token service moves the same
/// amount into custody: the plan's transfer names the depositor's source
/// account as source, the custody account as destination, the depositor as
/// authority, and the deposited amount. The one link record the plan may
/// carry is either the pool with its head pointer moved to the depositor's
/// slot, or the supplied tail user relinked to it; an existing depositor
/// changes no link at all.
pub proof fn lemma_deposit_grows_balance_exactly(
    depositor: AccountHandleV,
    depositor_token_account: AccountHandleV,
    user_account: AccountHandleV,
    pool_account: AccountHandleV,
    program_token_account: AccountHandleV,
    token_program: AccountHandleV,
    tail_user: Option<AccountHandleV>,
    program_id: Seq<u8>,
    amount: u64,
    plan: DepositPlanV,
)
    requires
        spec_deposit(
            depositor,
            depositor_token_account,
            user_account,
            pool_account,
            program_token_account,
            token_program,
            tail_user,
            program_id,
            amount,
        ) == Ok::<DepositPlanV, StepError>(plan),
        user_account.wf(),
    ensures
        crate::processor::spec_user_slot(user_account.data) matches Ok(u) && {
            &&& u.balance + amount <= u64::MAX
            &&& plan.user_write.target == user_account.key
            &&& crate::state::spec_decode_user_account(plan.user_write.record) == Some(
                crate::state::UserAccountV {
                    balance: (u.balance + amount) as u64,
                    next_user: u.next_user,
                    head_stream: u.head_stream,
                },
            )
        },
        plan.transfer == (TransferRequestV {
            source: depositor_token_account.key,
            destination: program_token_account.key,
            authority: depositor.key,
            amount,
        }),
        plan.pool_write is Some || plan.tail_user_write is Some
            ==> crate::processor::spec_user_slot(user_account.data).unwrap().is_fresh(),
        plan.pool_write matches Some(w) ==> (w.target == pool_account.key
            && (crate::state::spec_decode_pool(w.record) matches Some(p2) && p2.head_user
            == user_account.key)),
        plan.tail_user_write matches Some(w) ==> tail_user matches Some(t) && w.target == t.key
            && crate::state::spec_decode_user_account(w.record) == Some(
            crate::state::spec_relink_user(
                crate::state::spec_decode_user_account(t.data).unwrap(),
                user_account.key,
            ),
        ),
{
    let u = crate::processor::spec_user_slot(user_account.data).unwrap();
    let updated = crate::state::UserAccountV {
        balance: (u.balance + amount) as u64,
        next_user: u.next_user,
        head_stream: u.head_stream,
    };
    assert(u.wf()) by {
        if user_account.data.len() != 0 {
            assert(u == crate::state::spec_decode_user_account(user_account.data).unwrap());
        }
    }
    crate::state::lemma_user_account_roundtrip(updated);
    if plan.pool_write is Some {
        let pool = spec_decode_pool(pool_account.data).unwrap();
        let written = PoolV {
            is_initialized: pool.is_initialized,
            mint_pubkey: pool.mint_pubkey,
            pda_seed: pool.pda_seed,
            head_user: user_account.key,
        };
        lemma_pool_roundtrip(written);
    }
    if plan.tail_user_write is Some {
        let t = tail_user.unwrap();
        let tu = crate::state::spec_decode_user_account(t.data).unwrap();
        crate::state::lemma_user_account_roundtrip(
            crate::state::spec_relink_user(tu, user_account.key),
        );
    }
}

// ---------------------------------------------------------------------------
// Deposit conservation
// ---------------------------------------------------------------------------

/// Abstract ledger of one pool: the custody account's balance and the
/// balances of the users in its list.
pub struct LedgerV {
    pub custody: nat,
    pub balances: Seq<nat>,
}

/// Total of all user balances in the pool.
pub open spec fn spec_sum(s: Seq<nat>) -> nat
    decreases s.len(),
{
    if s.len() == 0 {
        0
    } else {
        spec_sum(s.drop_last()) + s.last()
    }
}

/// One successful deposit, as `spec_deposit` plans it: the token service
/// moves `amount` into custody, and the depositor's balance — an existing
/// user's entry, or a fresh user appended to the list — grows by exactly
/// `amount`.
pub open spec fn spec_ledger_deposit(l: LedgerV, user: nat, amount: nat) -> LedgerV {
    if user < l.balances.len() {
        LedgerV {
            custody: l.custody + amount,
            balances: l.balances.update(user as int, (l.balances[user as int] + amount) as nat),
        }
    } else {
        LedgerV { custody: l.custody + amount, balances: l.balances.push(amount) }
    }
}

/// A sequence of successful deposits, applied in order.
pub open spec fn spec_ledger_deposits(l: LedgerV, deposits: Seq<(nat, nat)>) -> LedgerV
    decreases deposits.len(),
{
    if deposits.len() == 0 {
        l
    } else {
        spec_ledger_deposits(
            spec_ledger_deposit(l, deposits[0].0, deposits[0].1),
            deposits.drop_first(),
        )
    }
}

/// Growing one entry grows the total by the same amount.
proof fn lemma_sum_update(s: Seq<nat>, i: int, a: nat)
    requires
        0 <= i < s.len(),
    ensures
        spec_sum(s.update(i, (s[i] + a) as nat)) == spec_sum(s) + a,
    decreases s.len(),
{
    let t = s.update(i, (s[i] + a) as nat);
    if i == s.len() - 1 {
        assert(t.drop_last() =~= s.drop_last());
    } else {
        assert(t.drop_last() =~= s.drop_last().update(i, (s.drop_last()[i] + a) as nat));
        lemma_sum_update(s.drop_last(), i, a);
        assert(t.last() == s.last());
    }
}

/// Appending an entry grows the total by that entry.
proof fn lemma_sum_push(s: Seq<nat>, a: nat)
    ensures
        spec_sum(s.push(a)) == spec_sum(s) + a,
{
    assert(s.push(a).drop_last() =~= s);
}

/// Deposit conservation: from any state in which the users' balances add up
/// to the custody balance — a freshly created pool starts at zero on both
/// sides — any sequence of successful deposits keeps them equal. Equality
/// holds while no trade has executed; a trade can only lower custody, never a
/// user balance, so the total never exceeds custody.
pub proof fn lemma_deposit_conservation(l: LedgerV, deposits: Seq<(nat, nat)>)
    requires
        spec_sum(l.balances) == l.custody,
    ensures
        spec_sum(spec_ledger_deposits(l, deposits).balances) == spec_ledger_deposits(
            l,
            deposits,
        ).custody,
    decreases deposits.len(),
{
    if deposits.len() > 0 {
        let user = deposits[0].0;
        let amount = deposits[0].1;
        if user < l.balances.len() {
            lemma_sum_update(l.balances, user as int, amount);
        } else {
            lemma_sum_push(l.balances, amount);
        }
        lemma_deposit_conservation(spec_ledger_deposit(l, user, amount), deposits.drop_first());
    }
}

/// One successful deposit, applied to a pool whose user balances add up to
/// its custody balance, keeps them equal: the plan grows the depositor's
/// persisted balance by exactly the planned transfer's amount, which is what
/// the token service moves into custody. A fresh depositor takes the ledger
/// entry appended at the end; an existing one grows their own entry.
pub proof fn lemma_deposit_event_conserves(
    depositor: AccountHandleV,
    depositor_token_account: AccountHandleV,
    user_account: AccountHandleV,
    pool_account: AccountHandleV,
    program_token_account: AccountHandleV,
    token_program: AccountHandleV,
    tail_user: Option<AccountHandleV>,
    program_id: Seq<u8>,
    amount: u64,
    plan: DepositPlanV,
    l: LedgerV,
    user_index: nat,
)
    requires
        spec_deposit(
            depositor,
            depositor_token_account,
            user_account,
            pool_account,
            program_token_account,
            token_program,
            tail_user,
            program_id,
            amount,
        ) == Ok::<DepositPlanV, StepError>(plan),
        user_account.wf(),
        spec_sum(l.balances) == l.custody,
        // The depositor's ledger entry holds their current balance; a fresh
        // depositor has no entry yet.
        ({
            let u = crate::processor::spec_user_slot(user_account.data).unwrap();
            if u.is_fresh() {
                user_index == l.balances.len()
            } else {
                user_index < l.balances.len() && l.balances[user_index as int] == u.balance
            }
        }),
    ensures
        ({
            let after = spec_ledger_deposit(l, user_index, amount as nat);
            &&& crate::state::spec_decode_user_account(plan.user_write.record).unwrap().balance
                == after.balances[user_index as int]
            &&& after.custody == l.custody + plan.transfer.amount
            &&& spec_sum(after.balances) == after.custody
        }),
{
    let u = crate::processor::spec_user_slot(user_account.data).unwrap();
    lemma_deposit_grows_balance_exactly(
        depositor,
        depositor_token_account,
        user_account,
        pool_account,
        program_token_account,
        token_program,
        tail_user,
        program_id,
        amount,
        plan,
    );
    if u.is_fresh() {
        lemma_sum_push(l.balances, amount as nat);
    } else {
        lemma_sum_update(l.balances, user_index as int, amount as nat);
    }
}

// ---------------------------------------------------------------------------
// Stream linkage
// ---------------------------------------------------------------------------

/// A successful registration persists, into the new slot, exactly the stream
/// it was asked for with a null forward link; and the one link record it may
/// carry is either the user's record with its head moved to the new slot, or
/// the supplied tail stream relinked to the new slot. These are the store and
/// head updates that [`lemma_stream_chain_append`] keeps a chain under.
pub proof fn lemma_create_stream_links_exactly(
    user: AccountHandleV,
    user_account: AccountHandleV,
    new_stream_account: AccountHandleV,
    tail_stream: Option<AccountHandleV>,
    input_token_pubkey: Seq<u8>,
    output_token_pubkey: Seq<u8>,
    interval_days: i64,
    amount: u64,
    plan: crate::processor::CreateStreamPlanV,
)
    requires
        crate::processor::spec_create_stream(
            user,
            user_account,
            new_stream_account,
            tail_stream,
            input_token_pubkey,
            output_token_pubkey,
            interval_days,
            amount,
        ) == Ok::<crate::processor::CreateStreamPlanV, StepError>(plan),
        is_key(new_stream_account.key),
        is_key(input_token_pubkey),
        is_key(output_token_pubkey),
    ensures
        plan.stream_write.target == new_stream_account.key,
        !is_null_key(new_stream_account.key),
        crate::state::spec_decode_stream(plan.stream_write.record) == Some(
            StreamV {
                input_token_pubkey,
                output_token_pubkey,
                next_stream: null_key_seq(),
                interval_days,
                amount,
            },
        ),
        plan.tail_stream_write matches Some(w) ==> tail_stream matches Some(t) && w.target == t.key
            && crate::state::spec_decode_stream(w.record) == Some(
            spec_relink_stream(
                crate::state::spec_decode_stream(t.data).unwrap(),
                new_stream_account.key,
            ),
        ),
{
    let st = StreamV {
        input_token_pubkey,
        output_token_pubkey,
        next_stream: null_key_seq(),
        interval_days,
        amount,
    };
    crate::state::lemma_stream_roundtrip(st);
    if plan.tail_stream_write is Some {
        let t = tail_stream.unwrap();
        let ts = crate::state::spec_decode_stream(t.data).unwrap();
        crate::state::lemma_stream_roundtrip(spec_relink_stream(ts, new_stream_account.key));
    }
}

/// The stream records reachable from a user's head pointer form exactly the
/// list `order`: the head points at the first entry, each entry's forward
/// link points at the next, the last link is the null sentinel, and no slot
/// appears twice.
pub open spec fn spec_stream_chain(
    store: Map<Seq<u8>, StreamV>,
    head: Seq<u8>,
    order: Seq<Seq<u8>>,
) -> bool {
    &&& if order.len() == 0 {
        is_null_key(head)
    } else {
        head == order[0]
    }
    &&& forall|i: int| 0 <= i < order.len() ==> store.contains_key(#[trigger] order[i])
    &&& forall|i: int|
        0 <= i < order.len() - 1 ==> store[#[trigger] order[i]].next_stream == order[i + 1]
    &&& order.len() > 0 ==> is_null_key(store[order.last()].next_stream)
    &&& forall|i: int, j: int| 0 <= i < j < order.len() ==> order[i] != order[j]
    &&& forall|i: int| 0 <= i < order.len() ==> !is_null_key(#[trigger] order[i])
}

/// Appending a stream as `spec_create_stream` plans it keeps the list exact:
/// a first stream becomes the head of a one-entry list; a later one is
/// persisted behind the old tail (whose forward link is redirected from the
/// null sentinel to the new slot) and the list grows by exactly that slot, in
/// creation order. The new slot must be fresh — registration enforces this by
/// refusing an occupied slot — and must not be the null sentinel.
pub proof fn lemma_stream_chain_append(
    store: Map<Seq<u8>, StreamV>,
    head: Seq<u8>,
    order: Seq<Seq<u8>>,
    new_addr: Seq<u8>,
    st: StreamV,
)
    requires
        spec_stream_chain(store, head, order),
        !store.contains_key(new_addr),
        !is_null_key(new_addr),
        is_null_key(st.next_stream),
    ensures
        order.len() == 0 ==> spec_stream_chain(
            store.insert(new_addr, st),
            new_addr,
            order.push(new_addr),
        ),
        order.len() > 0 ==> spec_stream_chain(
            store.insert(order.last(), spec_relink_stream(store[order.last()], new_addr)).insert(
                new_addr,
                st,
            ),
            head,
            order.push(new_addr),
        ),
{
    assert forall|i: int| 0 <= i < order.len() implies order[i] != new_addr by {
        assert(store.contains_key(order[i]));
    }
    if order.len() == 0 {
        let store2 = store.insert(new_addr, st);
        let order2 = order.push(new_addr);
        assert(order2[0] == new_addr);
        assert(store2[order2.last()].next_stream == st.next_stream);
        assert(spec_stream_chain(store2, new_addr, order2));
    } else {
        let tail = order.last();
        let store2 = store.insert(tail, spec_relink_stream(store[tail], new_addr)).insert(
            new_addr,
            st,
        );
        let order2 = order.push(new_addr);
        assert forall|i: int| 0 <= i < order2.len() implies store2.contains_key(
            #[trigger] order2[i],
        ) by {
            if i < order.len() {
                assert(store.contains_key(order[i]));
            }
        }
        assert forall|i: int|
            0 <= i < order2.len() - 1 implies store2[#[trigger] order2[i]].next_stream == order2[i
            + 1] by {
            if i < order.len() - 1 {
                assert(order2[i] == order[i]);
                assert(order[i] != tail);
                assert(order[i] != new_addr);
                assert(store2[order[i]] == store[order[i]]);
            } else {
                assert(order2[i] == tail);
                assert(store2[tail] == spec_relink_stream(store[tail], new_addr));
            }
        }
        assert(order2.last() == new_addr);
        assert(store2[new_addr] == st);
        assert(spec_stream_chain(store2, head, order2));
    }
}

/// One registration, applied to a store the chain describes, keeps the list
/// exact: when the handles present the store honestly — the new slot is not
/// in the store, the user record's head pointer is the chain's head, and the
/// tail handle (when the chain is non-empty) carries the chain's last record
/// — then persisting the plan's decoded writes extends the chain by exactly
/// the new slot. By induction over N such calls, the walk of
/// [`lemma_stream_chain_walk`] visits the N streams in creation order.
pub proof fn lemma_create_stream_extends_chain(
    user: AccountHandleV,
    user_account: AccountHandleV,
    new_stream_account: AccountHandleV,
    tail_stream: Option<AccountHandleV>,
    input_token_pubkey: Seq<u8>,
    output_token_pubkey: Seq<u8>,
    interval_days: i64,
    amount: u64,
    plan: crate::processor::CreateStreamPlanV,
    store: Map<Seq<u8>, StreamV>,
    head: Seq<u8>,
    order: Seq<Seq<u8>>,
)
    requires
        crate::processor::spec_create_stream(
            user,
            user_account,
            new_stream_account,
            tail_stream,
            input_token_pubkey,
            output_token_pubkey,
            interval_days,
            amount,
        ) == Ok::<crate::processor::CreateStreamPlanV, StepError>(plan),
        user_account.wf(),
        is_key(new_stream_account.key),
        is_key(input_token_pubkey),
        is_key(output_token_pubkey),
        spec_stream_chain(store, head, order),
        crate::processor::spec_user_slot(user_account.data) matches Ok(u) && u.head_stream
            == head,
        !store.contains_key(new_stream_account.key),
        order.len() > 0 ==> (tail_stream matches Some(t) && t.key == order.last()
            && crate::state::spec_decode_stream(t.data) == Some(store[order.last()])),
    ensures
        order.len() == 0 ==> (plan.user_write matches Some(uw)
            && (crate::state::spec_decode_user_account(uw.record) matches Some(u2)
            && spec_stream_chain(
            store.insert(
                new_stream_account.key,
                crate::state::spec_decode_stream(plan.stream_write.record).unwrap(),
            ),
            u2.head_stream,
            order.push(new_stream_account.key),
        ))),
        order.len() > 0 ==> (plan.tail_stream_write matches Some(tw) && spec_stream_chain(
            store.insert(
                order.last(),
                crate::state::spec_decode_stream(tw.record).unwrap(),
            ).insert(
                new_stream_account.key,
                crate::state::spec_decode_stream(plan.stream_write.record).unwrap(),
            ),
            head,
            order.push(new_stream_account.key),
        )),
{
    let u = crate::processor::spec_user_slot(user_account.data).unwrap();
    let st = StreamV {
        input_token_pubkey,
        output_token_pubkey,
        next_stream: null_key_seq(),
        interval_days,
        amount,
    };
    lemma_create_stream_links_exactly(
        user,
        user_account,
        new_stream_account,
        tail_stream,
        input_token_pubkey,
        output_token_pubkey,
        interval_days,
        amount,
        plan,
    );
    assert(crate::state::spec_decode_stream(plan.stream_write.record) == Some(st));
    lemma_stream_chain_append(store, head, order, new_stream_account.key, st);
    if order.len() == 0 {
        let linked = crate::state::UserAccountV {
            balance: u.balance,
            next_user: u.next_user,
            head_stream: new_stream_account.key,
        };
        assert(u.wf()) by {
            if user_account.data.len() != 0 {
                assert(u == crate::state::spec_decode_user_account(user_account.data).unwrap());
            }
        }
        crate::state::lemma_user_account_roundtrip(linked);
    } else {
        let t = tail_stream.unwrap();
        let ts = crate::state::spec_decode_stream(t.data).unwrap();
        assert(ts == store[order.last()]);
        let tw = plan.tail_stream_write.unwrap();
        assert(crate::state::spec_decode_stream(tw.record) == Some(
            spec_relink_stream(store[order.last()], new_stream_account.key),
        ));
    }
}

/// The slots visited by walking a user's stream list from `head` along the
/// forward links, or `None` if the walk cannot finish within `fuel` hops.
pub open spec fn spec_walk_streams(
    store: Map<Seq<u8>, StreamV>,
    head: Seq<u8>,
    fuel: nat,
) -> Option<Seq<Seq<u8>>>
    decreases fuel,
{
    if is_null_key(head) {
        Some(Seq::empty())
    } else if fuel == 0 {
        None
    } else if !store.contains_key(head) {
        None
    } else {
        match spec_walk_streams(store, store[head].next_stream, (fuel - 1) as nat) {
            None => None,
            Some(rest) => Some(seq![head] + rest),
        }
    }
}

/// Stream linkage: after N streams have been created for one user — each
/// appended behind the previous tail, so that `spec_stream_chain` holds of
/// the store, the user's head pointer and the N slots in creation order —
/// walking from the head pointer via the forward links visits exactly those N
/// slots, in that order, and terminates at the null sentinel within N hops.
pub proof fn lemma_stream_chain_walk(
    store: Map<Seq<u8>, StreamV>,
    head: Seq<u8>,
    order: Seq<Seq<u8>>,
)
    requires
        spec_stream_chain(store, head, order),
    ensures
        spec_walk_streams(store, head, order.len() as nat) == Some(order),
    decreases order.len(),
{
    if order.len() == 0 {
        assert(spec_walk_streams(store, head, 0) =~= Some(order));
    } else {
        let next = store[order[0]].next_stream;
        let rest = order.drop_first();
        if order.len() == 1 {
            assert(is_null_key(next));
        } else {
            assert(next == order[1]);
        }
        assert forall|i: int| 0 <= i < rest.len() - 1 implies store[#[trigger] rest[i]].next_stream
            == rest[i + 1] by {
            assert(rest[i] == order[i + 1]);
        }
        assert(spec_stream_chain(store, next, rest));
        lemma_stream_chain_walk(store, next, rest);
        assert(spec_walk_streams(store, head, order.len() as nat) == Some(seq![order[0]] + rest));
        assert(seq![order[0]] + rest =~= order);
    }
}

} // verus!
