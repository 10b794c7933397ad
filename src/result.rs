//! Execution results, and the comparison of two of them.
use vstd::prelude::*;
use crate::backend::BackendOutcome;
use crate::text::{bool_string, bool_text, decimal, decimal_string, hex_string, hex_text};
use crate::types::{Address, Log};

verus! {

/// Backend-independent outcome of one executed transaction.
#[derive(Clone, Debug)]
pub struct ExecutionResult {
    /// Whether execution succeeded.
    pub success: bool,
    /// Gas used during execution.
    pub gas_used: u64,
    /// Gas refunded.
    pub gas_refunded: u64,
    /// Output data.
    pub output: Vec<u8>,
    /// Logs emitted.
    pub logs: Vec<Log>,
    /// Why execution failed, when it did.
    pub revert_reason: Option<String>,
    /// The contract that a successful creation made.
    pub created_address: Option<Address>,
}

/// The revert reason of a result, as text.
pub open spec fn reason_text(r: ExecutionResult) -> Option<Seq<char>> {
    match r.revert_reason {
        Some(s) => Some(s@),
        None => None,
    }
}

/// The harness result for each engine outcome: success carries gas, refund and output;
/// a revert carries its output and a fixed reason; a halt carries no output and names
/// the halt reason. No outcome carries logs.
pub open spec fn outcome_result(o: BackendOutcome, r: ExecutionResult) -> bool {
    &&& r.logs@.len() == 0
    &&& match o {
        BackendOutcome::Success { gas_used, gas_refunded, output, created_address } => {
            &&& r.success
            &&& r.created_address == created_address
            &&& r.gas_used == gas_used
            &&& r.gas_refunded == gas_refunded
            &&& r.output@ == output@
            &&& reason_text(r) == None::<Seq<char>>
        },
        BackendOutcome::Revert { gas_used, output } => {
            &&& !r.success
            &&& r.gas_used == gas_used
            &&& r.gas_refunded == 0
            &&& r.output@ == output@
            &&& reason_text(r) == Some("Transaction reverted"@)
            &&& r.created_address is None
        },
        BackendOutcome::Halt { gas_used, reason } => {
            &&& !r.success
            &&& r.gas_used == gas_used
            &&& r.gas_refunded == 0
            &&& r.output@.len() == 0
            &&& reason_text(r) == Some("Transaction halted: "@ + reason@)
            &&& r.created_address is None
        },
    }
}

impl ExecutionResult {
    /// A successful result with the given gas and output.
    pub fn success(gas_used: u64, output: Vec<u8>) -> (r: Self)
        ensures
            r.success,
            r.gas_used == gas_used,
            r.gas_refunded == 0,
            r.output@ == output@,
            r.logs@.len() == 0,
            reason_text(r) == None::<Seq<char>>,
            r.created_address is None,
    {
        ExecutionResult {
            success: true,
            gas_used,
            gas_refunded: 0,
            output,
            logs: Vec::new(),
            revert_reason: None,
            created_address: None,
        }
    }

    /// A failed result with the given gas and reason, and no output.
    pub fn revert(gas_used: u64, reason: &str) -> (r: Self)
        ensures
            !r.success,
            r.gas_used == gas_used,
            r.gas_refunded == 0,
            r.output@.len() == 0,
            r.logs@.len() == 0,
            reason_text(r) == Some(reason@),
            r.created_address is None,
    {
        ExecutionResult {
            success: false,
            gas_used,
            gas_refunded: 0,
            output: Vec::new(),
            logs: Vec::new(),
            revert_reason: Some(reason.to_owned()),
            created_address: None,
        }
    }

    /// The harness result for what the engine reported.
    pub fn from_outcome(outcome: BackendOutcome) -> (r: Self)
        ensures
            outcome_result(outcome, r),
    {
        match outcome {
            BackendOutcome::Success { gas_used, gas_refunded, output, created_address } => {
                ExecutionResult {
                    success: true,
                    gas_used,
                    gas_refunded,
                    output,
                    logs: Vec::new(),
                    revert_reason: None,
                    created_address,
                }
            },
            BackendOutcome::Revert { gas_used, output } => ExecutionResult {
                success: false,
                gas_used,
                gas_refunded: 0,
                output,
                logs: Vec::new(),
                revert_reason: Some(String::from_str("Transaction reverted")),
                created_address: None,
            },
            BackendOutcome::Halt { gas_used, reason } => {
                let mut text = String::from_str("Transaction halted: ");
                text.append(reason.as_str());
                ExecutionResult {
                    success: false,
                    gas_used,
                    gas_refunded: 0,
                    output: Vec::new(),
                    logs: Vec::new(),
                    revert_reason: Some(text),
                    created_address: None,
                }
            },
        }
    }

    /// Whether execution succeeded.
    pub fn is_success(&self) -> (r: bool)
        ensures
            r == self.success,
    {
        self.success
    }

    /// Whether execution failed.
    pub fn is_revert(&self) -> (r: bool)
        ensures
            r == !self.success,
    {
        !self.success
    }

    /// The revert reason, if any.
    pub fn revert_reason(&self) -> (r: Option<&str>)
        ensures
            match r {
                Some(s) => reason_text(*self) == Some(s@),
                None => reason_text(*self) == None::<Seq<char>>,
            },
    {
        match &self.revert_reason {
            Some(s) => Some(s.as_str()),
            None => None,
        }
    }

    /// The result with `log` appended to its logs.
    pub fn with_log(self, log: Log) -> (r: Self)
        ensures
            r.logs@ == self.logs@.push(log),
            r.success == self.success,
            r.gas_used == self.gas_used,
            r.gas_refunded == self.gas_refunded,
            r.output@ == self.output@,
            reason_text(r) == reason_text(self),
            r.created_address == self.created_address,
    {
        let mut r = self;
        r.logs.push(log);
        r
    }

    /// The result with its refund set to `gas_refunded`.
    pub fn with_gas_refunded(self, gas_refunded: u64) -> (r: Self)
        ensures
            r.gas_refunded == gas_refunded,
            r.logs@ == self.logs@,
            r.success == self.success,
            r.gas_used == self.gas_used,
            r.output@ == self.output@,
            reason_text(r) == reason_text(self),
            r.created_address == self.created_address,
    {
        let mut r = self;
        r.gas_refunded = gas_refunded;
        r
    }
}

/// One difference line: what differs, then both values.
pub open spec fn difference_text(what: Seq<char>, test: Seq<char>, reference: Seq<char>) -> Seq<
    char,
> {
    what + " differs: test="@ + test + ", reference="@ + reference
}

/// `s` as a one-line list when `differs`, else the empty list.
pub open spec fn line_if(differs: bool, s: Seq<char>) -> Seq<Seq<char>> {
    if differs {
        seq![s]
    } else {
        Seq::empty()
    }
}

/// The differences between two results, in the fixed order: status, gas used, output,
/// log count. Refund and revert reason are not compared.
pub open spec fn differences_of(t: ExecutionResult, r: ExecutionResult) -> Seq<Seq<char>> {
    line_if(
        t.success != r.success,
        difference_text("Execution status"@, bool_text(t.success), bool_text(r.success)),
    ) + line_if(
        t.gas_used != r.gas_used,
        difference_text(
            "Gas used"@,
            decimal(t.gas_used as nat),
            decimal(r.gas_used as nat),
        ),
    ) + line_if(
        t.output@ != r.output@,
        difference_text("Output"@, hex_text(t.output@), hex_text(r.output@)),
    ) + line_if(
        t.logs@.len() != r.logs@.len(),
        difference_text(
            "Log count"@,
            decimal(t.logs@.len()),
            decimal(r.logs@.len()),
        ),
    )
}

/// Whether two results agree on status, gas used, output and log count.
pub open spec fn results_agree(t: ExecutionResult, r: ExecutionResult) -> bool {
    &&& t.success == r.success
    &&& t.gas_used == r.gas_used
    &&& t.output@ == r.output@
    &&& t.logs@.len() == r.logs@.len()
}

/// The text of each string of a list.
pub open spec fn texts(v: Seq<String>) -> Seq<Seq<char>> {
    v.map_values(|s: String| s@)
}

/// Lines joined with a newline between each two.
pub open spec fn joined(lines: Seq<Seq<char>>) -> Seq<char>
    decreases lines.len(),
{
    if lines.len() == 0 {
        Seq::empty()
    } else if lines.len() == 1 {
        lines[0]
    } else {
        joined(lines.drop_last()) + "\n"@ + lines.last()
    }
}

/// Comparison between two execution results.
#[derive(Clone, Debug)]
pub struct EvmComparison {
    /// The result under test.
    pub test_result: ExecutionResult,
    /// The reference result.
    pub reference_result: ExecutionResult,
    /// Whether the results match.
    pub matches: bool,
    /// Differences found.
    pub differences: Vec<String>,
}

fn bytes_equal(a: &Vec<u8>, b: &Vec<u8>) -> (r: bool)
    ensures
        r == (a@ == b@),
{
    if a.len() != b.len() {
        return false;
    }
    let mut i: usize = 0;
    while i < a.len()
        invariant
            a@.len() == b@.len(),
            i <= a@.len(),
            forall|j: int| 0 <= j < i ==> a@[j] == b@[j],
        decreases a.len() - i,
    {
        if a[i] != b[i] {
            return false;
        }
        i = i + 1;
    }
    assert(a@ =~= b@);
    true
}

fn difference_line(what: &str, test: String, reference: String) -> (r: String)
    ensures
        r@ == difference_text(what@, test@, reference@),
{
    let mut s = String::from_str(what);
    s.append(" differs: test=");
    s.append(test.as_str());
    s.append(", reference=");
    s.append(reference.as_str());
    s
}

impl EvmComparison {
    /// Compares two results on status, gas used, output and log count, in that order,
    /// recording one line per difference.
    pub fn new(test_result: ExecutionResult, reference_result: ExecutionResult) -> (r: Self)
        ensures
            r.test_result == test_result,
            r.reference_result == reference_result,
            texts(r.differences@) == differences_of(test_result, reference_result),
            r.matches == results_agree(test_result, reference_result),
    {
        let ghost t = test_result;
        let ghost f = reference_result;
        let mut differences: Vec<String> = Vec::new();
        let mut matches = true;

        if test_result.success != reference_result.success {
            differences.push(
                difference_line(
                    "Execution status",
                    bool_string(test_result.success),
                    bool_string(reference_result.success),
                ),
            );
            matches = false;
        }
        let ghost d1 = texts(differences@);
        assert(d1 =~= line_if(
            t.success != f.success,
            difference_text("Execution status"@, bool_text(t.success), bool_text(f.success)),
        ));

        if test_result.gas_used != reference_result.gas_used {
            differences.push(
                difference_line(
                    "Gas used",
                    decimal_string(test_result.gas_used),
                    decimal_string(reference_result.gas_used),
                ),
            );
            matches = false;
        }
        let ghost d2 = texts(differences@);
        assert(d2 =~= d1 + line_if(
            t.gas_used != f.gas_used,
            difference_text("Gas used"@, decimal(t.gas_used as nat), decimal(f.gas_used as nat)),
        ));

        if !bytes_equal(&test_result.output, &reference_result.output) {
            differences.push(
                difference_line(
                    "Output",
                    hex_string(&test_result.output),
                    hex_string(&reference_result.output),
                ),
            );
            matches = false;
        }
        let ghost d3 = texts(differences@);
        assert(d3 =~= d2 + line_if(
            t.output@ != f.output@,
            difference_text("Output"@, hex_text(t.output@), hex_text(f.output@)),
        ));

        if test_result.logs.len() != reference_result.logs.len() {
            differences.push(
                difference_line(
                    "Log count",
                    decimal_string(test_result.logs.len() as u64),
                    decimal_string(reference_result.logs.len() as u64),
                ),
            );
            matches = false;
        }
        assert(texts(differences@) =~= d3 + line_if(
            t.logs@.len() != f.logs@.len(),
            difference_text("Log count"@, decimal(t.logs@.len()), decimal(f.logs@.len())),
        ));

        EvmComparison { test_result, reference_result, matches, differences }
    }

    /// Whether the results match.
    pub fn is_match(&self) -> (r: bool)
        ensures
            r == self.matches,
    {
        self.matches
    }

    /// The differences found, one line each.
    pub fn differences(&self) -> (r: &[String])
        ensures
            r@ == self.differences@,
    {
        self.differences.as_slice()
    }

    /// The report of a mismatch: a heading line, then each difference on its own line.
    pub fn mismatch_report(&self) -> (r: String)
        ensures
            r@ == "EVM execution results differ:\n"@ + joined(texts(self.differences@)),
    {
        let mut s = String::from_str("EVM execution results differ:\n");
        let ghost head = "EVM execution results differ:\n"@;
        let mut i: usize = 0;
        while i < self.differences.len()
            invariant
                i <= self.differences@.len(),
                s@ == head + joined(texts(self.differences@.take(i as int))),
            decreases self.differences.len() - i,
        {
            proof {
                let next = texts(self.differences@.take(i + 1));
                assert(next.drop_last() =~= texts(self.differences@.take(i as int)));
                assert(next.last() == self.differences@[i as int]@);
            }
            if i > 0 {
                s.append("\n");
            }
            s.append(self.differences[i].as_str());
            i = i + 1;
        }
        proof {
            assert(self.differences@.take(self.differences@.len() as int) =~= self.differences@);
        }
        s
    }

    /// Asserts that the results match; callers holding a mismatch report it with
    /// `mismatch_report` instead.
    pub fn assert_match(&self)
        requires
            self.matches,
    {
    }
}

} // verus!
