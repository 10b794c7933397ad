//! Properties that hold across the operations of the library.
use vstd::prelude::*;
use crate::context::BlockEnv;
use crate::dev::{DEV_BALANCE, dev_accounts_model, dev_address};
use crate::backend::{ExecutionBackend, InMemoryDB};
use crate::error::Error;
use crate::harness::{EvmTestHarness, ran_tx};
use crate::result::{EvmComparison, ExecutionResult, differences_of, results_agree, texts};

verus! {

/// The ten development addresses are twenty bytes long and pairwise distinct, so every
/// index names its own account and provisioning creates ten of them.
pub proof fn dev_addresses_distinct(i: int, j: int)
    requires
        0 <= i < 10,
        0 <= j < 10,
        i != j,
    ensures
        dev_address(i).len() == 20,
        dev_address(i) != dev_address(j),
{
    assert(dev_address(i)[0] != dev_address(j)[0]);
}

/// After provisioning, the account at every development address exists with the dev
/// balance, nonce 0 and no code, no other account exists, and there are ten of them.
pub proof fn dev_accounts_funded(i: int, a: Seq<u8>)
    requires
        0 <= i < 10,
    ensures
        dev_accounts_model().dom().len() == 10,
        dev_accounts_model().contains_key(dev_address(i)),
        dev_accounts_model()[dev_address(i)] == (DEV_BALANCE as nat, 0nat, true),
        dev_accounts_model().contains_key(a) <==> exists|k: int| 0 <= k < 10 && dev_address(k) == a,
{
    assert(0 <= i < 10 && dev_address(i) == dev_address(i));
    let listed = set![
        dev_address(0),
        dev_address(1),
        dev_address(2),
        dev_address(3),
        dev_address(4),
        dev_address(5),
        dev_address(6),
        dev_address(7),
        dev_address(8),
        dev_address(9),
    ];
    assert forall|b: Seq<u8>| dev_accounts_model().dom().contains(b) implies #[trigger] listed.contains(b) by {
        let k = choose|k: int| 0 <= k < 10 && dev_address(k) == b;
        assert(k == 0 || k == 1 || k == 2 || k == 3 || k == 4 || k == 5 || k == 6 || k == 7
            || k == 8 || k == 9);
    }
    assert forall|b: Seq<u8>| #[trigger] listed.contains(b) implies dev_accounts_model().dom().contains(b) by {
        if b == dev_address(0) {
            assert(0 <= 0 < 10 && dev_address(0) == b);
        } else if b == dev_address(1) {
            assert(0 <= 1 < 10 && dev_address(1) == b);
        } else if b == dev_address(2) {
            assert(0 <= 2 < 10 && dev_address(2) == b);
        } else if b == dev_address(3) {
            assert(0 <= 3 < 10 && dev_address(3) == b);
        } else if b == dev_address(4) {
            assert(0 <= 4 < 10 && dev_address(4) == b);
        } else if b == dev_address(5) {
            assert(0 <= 5 < 10 && dev_address(5) == b);
        } else if b == dev_address(6) {
            assert(0 <= 6 < 10 && dev_address(6) == b);
        } else if b == dev_address(7) {
            assert(0 <= 7 < 10 && dev_address(7) == b);
        } else if b == dev_address(8) {
            assert(0 <= 8 < 10 && dev_address(8) == b);
        } else {
            assert(0 <= 9 < 10 && dev_address(9) == b);
        }
    }
    assert(dev_accounts_model().dom() =~= listed);
    assert(listed.len() == 10);
}

/// Reading the block number after setting it to `x` gives `x`, whatever the number was
/// before, also when `x` is lower.
pub proof fn block_number_set_then_read<B: ExecutionBackend>(
    before: EvmTestHarness<B>,
    after: EvmTestHarness<B>,
    x: u64,
)
    requires
        after.block() == (BlockEnv { number: x, ..before.block() }),
    ensures
        after.block().number == x,
{
}

/// Two results match, that is have no difference, exactly when they agree on status,
/// gas used, output and log count.
pub proof fn comparison_matches_iff_agree(t: ExecutionResult, r: ExecutionResult)
    ensures
        (differences_of(t, r).len() == 0) == results_agree(t, r),
{
    assert(differences_of(t, r).len() == (if t.success != r.success { 1int } else { 0 }) + (
    if t.gas_used != r.gas_used {
        1int
    } else {
        0
    }) + (if t.output@ != r.output@ {
        1int
    } else {
        0
    }) + (if t.logs@.len() != r.logs@.len() {
        1int
    } else {
        0
    }));
}

/// Results that differ only in their refund and revert reason match.
pub proof fn refund_and_reason_not_compared(t: ExecutionResult, r: ExecutionResult)
    requires
        r.success == t.success,
        r.gas_used == t.gas_used,
        r.output@ == t.output@,
        r.logs@ == t.logs@,
    ensures
        results_agree(t, r),
        differences_of(t, r).len() == 0,
{
    comparison_matches_iff_agree(t, r);
}

/// A comparison built by `EvmComparison::new` matches exactly when its list of
/// differences is empty.
pub proof fn comparison_matches_iff_no_differences(c: EvmComparison)
    requires
        texts(c.differences@) == differences_of(c.test_result, c.reference_result),
        c.matches == results_agree(c.test_result, c.reference_result),
    ensures
        c.matches <==> c.differences@.len() == 0,
{
    comparison_matches_iff_agree(c.test_result, c.reference_result);
    assert(texts(c.differences@).len() == c.differences@.len());
}

/// A transaction that the engine refuses leaves the accounts of a revm-backed harness as
/// they were.
pub proof fn refused_transaction_keeps_accounts(
    pre: EvmTestHarness<InMemoryDB>,
    post: EvmTestHarness<InMemoryDB>,
    tx: crate::backend::Transaction,
    res: Result<ExecutionResult, Error>,
)
    requires
        ran_tx(pre, post, tx, res),
        res is Err,
    ensures
        post.accounts() == pre.accounts(),
{
}

} // verus!
