//! Resource ceilings of one container run.

use vstd::prelude::*;
use vstd::string::StringExecFns;
use crate::error::CliError;
use crate::text::chars_parse_decimal;
use crate::text::lower_char;
use crate::text::parse_decimal;
use crate::text::to_chars;
use crate::text::to_lower_char;
use crate::text::is_digit;

verus! {

/// The number of bytes that a size unit letter multiplies by.
pub open spec fn unit_factor(c: char) -> Option<nat> {
    if c == 'b' {
        Some(1nat)
    } else if c == 'k' {
        Some(1024nat)
    } else if c == 'm' {
        Some(1048576nat)
    } else if c == 'g' {
        Some(1073741824nat)
    } else {
        None
    }
}

/// The number of bytes that a memory size stands for: a decimal number, and
/// behind it at most one unit letter `b`, `k`, `m` or `g` in either case.
/// A number without a letter counts bytes.
pub open spec fn memory_bytes(s: Seq<char>) -> Option<nat> {
    if s.len() == 0 {
        None
    } else if is_digit(s.last()) {
        parse_decimal(s)
    } else {
        match (unit_factor(lower_char(s.last())), parse_decimal(s.drop_last())) {
            (Some(factor), Some(count)) => Some(count * factor),
            _ => None,
        }
    }
}

/// What is wrong with limits that are refused: the first size that cannot
/// be read in 64 bits, or the order of the two sizes.
pub open spec fn limits_defect(memory: Seq<char>, memory_swap: Seq<char>) -> Seq<char> {
    if !(memory_bytes(memory) matches Some(m) && m <= u64::MAX) {
        "Invalid memory limit: "@ + memory
    } else if !(memory_bytes(memory_swap) matches Some(s) && s <= u64::MAX) {
        "Invalid memory+swap limit: "@ + memory_swap
    } else {
        "Memory+swap limit "@ + memory_swap + " is below the memory limit "@ + memory
    }
}

/// Memory, memory plus swap, processor share and process count of a container.
#[derive(Debug)]
pub struct ContainerLimits {
    /// The memory ceiling, such as `4g`.
    pub memory: String,
    /// The ceiling on memory and swap together, such as `8g`.
    pub memory_swap: String,
    /// The processor share, such as `2.0`.
    pub cpus: String,
    /// The largest number of processes.
    pub pids_limit: u32,
}

/// Reads a memory size, where its byte count fits in 64 bits.
pub fn parse_memory_size(size: &str) -> (r: Option<u64>)
    ensures
        match r {
            Some(n) => memory_bytes(size@) == Some(n as nat),
            None => memory_bytes(size@) is None || memory_bytes(size@)->0 > u64::MAX,
        },
{
    let v = to_chars(size);
    if v.len() == 0 {
        return None;
    }
    let last = v[v.len() - 1];
    proof {
        assert(v@.subrange(0, v.len() as int) =~= v@);
        assert(v@.subrange(0, v.len() - 1) =~= v@.drop_last());
    }
    if last >= '0' && last <= '9' {
        return chars_parse_decimal(&v, v.len());
    }
    let unit = to_lower_char(last);
    let factor: u64 = if unit == 'b' {
        1
    } else if unit == 'k' {
        1024
    } else if unit == 'm' {
        1048576
    } else if unit == 'g' {
        1073741824
    } else {
        return None;
    };
    match chars_parse_decimal(&v, v.len() - 1) {
        None => {
            proof {
                let count = parse_decimal(v@.drop_last());
                if count is Some {
                    assert(count->0 * factor >= count->0) by (nonlinear_arith)
                        requires
                            factor >= 1,
                    ;
                }
            }
            None
        },
        Some(count) => {
            if count > u64::MAX / factor {
                proof {
                    assert(count * factor > u64::MAX) by (nonlinear_arith)
                        requires
                            count > u64::MAX / factor,
                            factor >= 1,
                    ;
                }
                None
            } else {
                proof {
                    assert(count * factor <= u64::MAX) by (nonlinear_arith)
                        requires
                            count <= u64::MAX / factor,
                            factor >= 1,
                    ;
                }
                Some(count * factor)
            }
        },
    }
}

impl ContainerLimits {
    /// Both sizes can be read, and memory plus swap is no smaller than memory.
    pub open spec fn well_formed(&self) -> bool {
        &&& memory_bytes(self.memory@) matches Some(m) && m <= u64::MAX
        &&& memory_bytes(self.memory_swap@) matches Some(s) && s <= u64::MAX
        &&& memory_bytes(self.memory_swap@)->0 >= memory_bytes(self.memory@)->0
    }

    /// Limits with the given values, refused where a size cannot be read or
    /// the ceiling on memory plus swap lies below the memory ceiling.
    pub fn new(memory: String, memory_swap: String, cpus: String, pids_limit: u32) -> (r: Result<
        ContainerLimits,
        CliError,
    >)
        ensures
            match r {
                Ok(limits) => {
                    &&& limits.well_formed()
                    &&& limits.memory@ == memory@
                    &&& limits.memory_swap@ == memory_swap@
                    &&& limits.cpus@ == cpus@
                    &&& limits.pids_limit == pids_limit
                },
                Err(e) => {
                    &&& !(ContainerLimits { memory, memory_swap, cpus, pids_limit }).well_formed()
                    &&& e matches CliError::InvalidArguments { reason } && reason@ == limits_defect(
                        memory@,
                        memory_swap@,
                    )
                },
            },
    {
        let limits = ContainerLimits { memory, memory_swap, cpus, pids_limit };
        match limits.validate() {
            Ok(_) => Ok(limits),
            Err(e) => Err(e),
        }
    }

    /// Says what is wrong with the limits, if anything is.
    pub fn validate(&self) -> (r: Result<(), CliError>)
        ensures
            match r {
                Ok(_) => self.well_formed(),
                Err(e) => {
                    &&& !self.well_formed()
                    &&& e matches CliError::InvalidArguments { reason } && reason@ == limits_defect(
                        self.memory@,
                        self.memory_swap@,
                    )
                },
            },
    {
        let m = parse_memory_size(self.memory.as_str());
        let s = parse_memory_size(self.memory_swap.as_str());
        match (m, s) {
            (Some(mem), Some(swap)) => {
                if swap >= mem {
                    Ok(())
                } else {
                    let mut reason = String::from_str("Memory+swap limit ");
                    reason.append(self.memory_swap.as_str());
                    reason.append(" is below the memory limit ");
                    reason.append(self.memory.as_str());
                    Err(CliError::InvalidArguments { reason })
                }
            },
            (None, _) => {
                let mut reason = String::from_str("Invalid memory limit: ");
                reason.append(self.memory.as_str());
                Err(CliError::InvalidArguments { reason })
            },
            (_, None) => {
                let mut reason = String::from_str("Invalid memory+swap limit: ");
                reason.append(self.memory_swap.as_str());
                Err(CliError::InvalidArguments { reason })
            },
        }
    }

    /// Whether the sizes can be read and memory plus swap is no smaller than memory.
    pub fn is_valid(&self) -> (r: bool)
        ensures
            r == self.well_formed(),
    {
        match (parse_memory_size(self.memory.as_str()), parse_memory_size(self.memory_swap.as_str())) {
            (Some(mem), Some(swap)) => swap >= mem,
            _ => false,
        }
    }
}

impl Default for ContainerLimits {
    /// Four gigabytes of memory, eight with swap, two processors, a thousand processes.
    fn default() -> (r: ContainerLimits)
        ensures
            r.memory@ == "4g"@,
            r.memory_swap@ == "8g"@,
            r.cpus@ == "2.0"@,
            r.pids_limit == 1000,
            r.well_formed(),
    {
        proof {
            lemma_default_sizes();
        }
        ContainerLimits {
            memory: String::from_str("4g"),
            memory_swap: String::from_str("8g"),
            cpus: String::from_str("2.0"),
            pids_limit: 1000,
        }
    }
}

/// The default sizes in bytes.
pub proof fn lemma_default_sizes()
    ensures
        memory_bytes("4g"@) == Some(4294967296nat),
        memory_bytes("8g"@) == Some(8589934592nat),
{
    reveal_strlit("4g");
    reveal_strlit("8g");
    lemma_gigabytes("4g"@, '4', 4);
    lemma_gigabytes("8g"@, '8', 8);
}

/// The size that one digit and the letter `g` write.
proof fn lemma_gigabytes(s: Seq<char>, digit: char, count: nat)
    requires
        s.len() == 2,
        s[0] == digit,
        s[1] == 'g',
        is_digit(digit),
        crate::text::digit_value(digit) == count,
    ensures
        memory_bytes(s) == Some(count * 1073741824),
{
    assert(s.last() == 'g');
    assert(!is_digit('g'));
    assert(lower_char('g') == 'g');
    assert(unit_factor('g') == Some(1073741824nat));
    assert(s.drop_last() =~= seq![digit]);
    assert(seq![digit].len() == 1 && seq![digit].last() == digit);
    assert(parse_decimal(seq![digit]) == Some(count));
}

} // verus!
