//! Block and test-vector fixtures, and where they are kept. Reading and writing the
//! files is left to callers; the rules for naming and ordering them stand here.
use vstd::prelude::*;
use vstd::multiset::Multiset;
use crate::text::{decimal, decimal_string};
use crate::types::{Address, B256};
use std::path::PathBuf;

verus! {

/// State of one account in a fixture.
#[derive(Clone, Debug)]
pub struct AccountState {
    /// Balance, as 32 big-endian bytes.
    pub balance: [u8; 32],
    pub nonce: u64,
    pub code: Option<Vec<u8>>,
    /// Storage slots, each key once.
    pub storage: Vec<(B256, B256)>,
}

/// A block test fixture.
#[derive(Clone, Debug)]
pub struct BlockFixture {
    pub number: u64,
    pub hash: B256,
    pub parent_hash: B256,
    pub timestamp: u64,
    pub gas_limit: u64,
    pub gas_used: u64,
    pub base_fee_per_gas: Option<u64>,
    /// Encoded transactions of the block.
    pub transactions: Vec<Vec<u8>>,
    /// State before the block, each address once.
    pub pre_state: Option<Vec<(Address, AccountState)>>,
    /// State after the block, each address once.
    pub post_state: Option<Vec<(Address, AccountState)>>,
}

/// A test vector: a genesis state and the blocks to run on it.
#[derive(Clone, Debug)]
pub struct TestVector {
    pub name: String,
    pub description: Option<String>,
    pub chain_id: u64,
    /// Genesis state, each address once.
    pub genesis: Vec<(Address, AccountState)>,
    pub blocks: Vec<BlockFixture>,
}

/// Whether the blocks are in ascending order of number.
pub open spec fn sorted_by_number(s: Seq<BlockFixture>) -> bool {
    forall|i: int, j: int| 0 <= i < j < s.len() ==> s[i].number <= s[j].number
}

/// The blocks in ascending order of number.
pub fn order_blocks(blocks: Vec<BlockFixture>) -> (r: Vec<BlockFixture>)
    ensures
        sorted_by_number(r@),
        r@.to_multiset() == blocks@.to_multiset(),
{
    broadcast use vstd::seq_lib::to_multiset_remove, vstd::seq_lib::to_multiset_insert;
    let ghost orig = blocks@;
    let mut rest = blocks;
    let mut out: Vec<BlockFixture> = Vec::new();
    proof {
        assert(out@ =~= Seq::<BlockFixture>::empty());
        assert(out@.to_multiset() =~= Multiset::empty()) by {
            broadcast use vstd::seq_lib::to_multiset_len;
            assert(out@.to_multiset().len() == 0);
        }
    }
    while rest.len() > 0
        invariant
            sorted_by_number(out@),
            out@.to_multiset().add(rest@.to_multiset()) == orig.to_multiset(),
        decreases rest.len(),
    {
        let ghost rest0 = rest@;
        let b = rest.remove(0);
        let mut j: usize = 0;
        while j < out.len() && out[j].number <= b.number
            invariant
                j <= out@.len(),
                sorted_by_number(out@),
                forall|k: int| 0 <= k < j ==> out@[k].number <= b.number,
            decreases out.len() - j,
        {
            j = j + 1;
        }
        let ghost out0 = out@;
        let ghost bn = b.number;
        out.insert(j, b);
        proof {
            assert(forall|k: int| j <= k < out0.len() ==> out0[k].number > bn);
            assert(out@ =~= out0.insert(j as int, b));
            assert(sorted_by_number(out@));
            assert(b == rest0[0]);
            assert(rest0 =~= rest@.insert(0, b));
            vstd::seq_lib::to_multiset_insert(rest@, 0, b);
            vstd::seq_lib::to_multiset_insert(out0, j as int, b);
            assert(rest0.to_multiset() == rest@.to_multiset().insert(b));
            assert(out@.to_multiset() == out0.to_multiset().insert(b));
            assert(out@.to_multiset().add(rest@.to_multiset()) =~= out0.to_multiset().add(
                rest0.to_multiset(),
            ));
        }
    }
    proof {
        assert(rest@.to_multiset() =~= Multiset::empty()) by {
            broadcast use vstd::seq_lib::to_multiset_len;
            assert(rest@.to_multiset().len() == 0);
        }
        assert(out@.to_multiset().add(rest@.to_multiset()) =~= out@.to_multiset());
    }
    out
}

/// Whether a file name has the extension `json`: it ends in `.json` after at least one
/// other character.
pub open spec fn json_name(name: Seq<char>) -> bool {
    name.len() >= 6 && name.subrange(name.len() - 5, name.len() as int) == ".json"@
}

/// Whether a file name has the extension `json`, the files that hold fixtures.
pub fn is_json_file(name: &str) -> (r: bool)
    ensures
        r == json_name(name@),
{
    let n = name.unicode_len();
    if n < 6 {
        return false;
    }
    let suffix = name.substring_char(n - 5, n);
    proof {
        reveal_strlit(".json");
    }
    let ext = ".json";
    let mut i: usize = 0;
    while i < 5
        invariant
            n == name@.len(),
            n >= 6,
            suffix@ == name@.subrange(n - 5, n as int),
            suffix@.len() == 5,
            ext@ == ".json"@,
            ext@.len() == 5,
            i <= 5,
            forall|k: int| 0 <= k < i ==> suffix@[k] == ext@[k],
        decreases 5 - i,
    {
        if suffix.get_char(i) != ext.get_char(i) {
            assert(name@.subrange(n - 5, n as int)[i as int] != ".json"@[i as int]);
            return false;
        }
        i = i + 1;
    }
    assert(suffix@ =~= ext@);
    true
}

/// The file that holds the block at position `index` of a saved list, counting from 1.
pub open spec fn block_file_text(index: nat) -> Seq<char> {
    "block_"@ + decimal(index + 1) + ".json"@
}

/// The name of the file that holds the block at position `index` of a saved list.
pub fn block_file_name(index: u64) -> (r: String)
    requires
        index < u64::MAX,
    ensures
        r@ == block_file_text(index as nat),
{
    let mut s = String::from_str("block_");
    s.append(decimal_string(index + 1).as_str());
    s.append(".json");
    s
}

/// The name of the file that holds the test vector called `name`.
pub fn test_vector_file_name(name: &str) -> (r: String)
    ensures
        r@ == name@ + ".json"@,
{
    let mut s = String::from_str(name);
    s.append(".json");
    s
}

#[verifier::external_type_specification]
#[verifier::external_body]
pub struct ExPathBuf(PathBuf);

/// Relies on `PathBuf::from` for a `&str`.
#[verifier::external_body]
fn path_of(dir: &str) -> PathBuf {
    PathBuf::from(dir)
}

/// Where fixtures are loaded from and saved to.
pub struct FixtureManager {
    dir: String,
    fixtures_dir: PathBuf,
}

impl FixtureManager {
    /// The directory, as text.
    pub closed spec fn dir_text(&self) -> Seq<char> {
        self.dir@
    }

    /// A manager of the fixtures under `fixtures_dir`.
    pub fn new(fixtures_dir: &str) -> (r: Self)
        ensures
            r.dir_text() == fixtures_dir@,
    {
        FixtureManager { dir: fixtures_dir.to_owned(), fixtures_dir: path_of(fixtures_dir) }
    }

    /// The fixtures directory.
    pub fn fixtures_dir(&self) -> &PathBuf {
        &self.fixtures_dir
    }

    /// The fixtures directory, as text.
    pub fn fixtures_dir_str(&self) -> (r: &str)
        ensures
            r@ == self.dir_text(),
    {
        self.dir.as_str()
    }
}

} // verus!
