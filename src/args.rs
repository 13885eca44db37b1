//! Checking the command-line values: which GPUs are selected, and the
//! per-GPU values given to an option.
use vstd::prelude::*;
use crate::decimal::{i32_of, parse_i32, parse_usize, usize_of};

verus! {

/// Why the command-line values were refused.
#[derive(Debug, Clone, Copy, PartialEq, Eq, Structural)]
pub enum ArgError {
    /// No GPU index was given.
    MissingIds,
    /// The GPU index at `position` is not an unsigned decimal number.
    InvalidIndex { position: usize },
    /// The GPU index at `position` reads `index`, which names no installed GPU.
    IndexOutOfRange { position: usize, index: usize },
    /// The option value at `position` is not a decimal `i32`.
    InvalidValue { position: usize },
    /// The option was given `got` values where one per selected GPU,
    /// `expected` in all, was needed.
    WrongNumberOfValues { got: usize, expected: usize },
}

/// The view of a `Result` that holds a `Vec`.
pub open spec fn seq_result<T>(r: Result<Vec<T>, ArgError>) -> Result<Seq<T>, ArgError> {
    match r {
        Ok(v) => Ok(v@),
        Err(e) => Err(e),
    }
}

/// The GPUs named by the first `n` index texts of `ids`, where `gpu_count`
/// GPUs are installed; or the error for the first text among them that is
/// not a number or names no installed GPU.
pub open spec fn select_prefix(ids: Seq<String>, n: nat, gpu_count: nat) -> Result<
    Seq<usize>,
    ArgError,
>
    decreases n,
{
    if n == 0 {
        Ok(Seq::empty())
    } else {
        match select_prefix(ids, (n - 1) as nat, gpu_count) {
            Err(e) => Err(e),
            Ok(selected) => match usize_of(ids[n - 1]@) {
                None => Err(ArgError::InvalidIndex { position: (n - 1) as usize }),
                Some(index) => if index < gpu_count {
                    Ok(selected.push(index))
                } else {
                    Err(ArgError::IndexOutOfRange { position: (n - 1) as usize, index })
                },
            },
        }
    }
}

/// The GPUs that the index texts `ids` select, in the order given, where
/// `gpu_count` GPUs are installed. An empty list selects nothing and is an
/// error.
pub open spec fn selection(ids: Seq<String>, gpu_count: nat) -> Result<Seq<usize>, ArgError> {
    if ids.len() == 0 {
        Err(ArgError::MissingIds)
    } else {
        select_prefix(ids, ids.len(), gpu_count)
    }
}

/// The numbers that the first `n` value texts of `values` write; or the
/// error for the first of them that is not a decimal `i32`.
pub open spec fn parse_prefix(values: Seq<String>, n: nat) -> Result<Seq<i32>, ArgError>
    decreases n,
{
    if n == 0 {
        Ok(Seq::empty())
    } else {
        match parse_prefix(values, (n - 1) as nat) {
            Err(e) => Err(e),
            Ok(parsed) => match i32_of(values[n - 1]@) {
                None => Err(ArgError::InvalidValue { position: (n - 1) as usize }),
                Some(v) => Ok(parsed.push(v)),
            },
        }
    }
}

/// The values given to an option, one for each of `expected_len` selected
/// GPUs: all of them must be decimal `i32`s, and there must be exactly
/// `expected_len` of them.
pub open spec fn option_values(values: Seq<String>, expected_len: nat) -> Result<
    Seq<i32>,
    ArgError,
> {
    match parse_prefix(values, values.len()) {
        Err(e) => Err(e),
        Ok(parsed) => if values.len() == expected_len {
            Ok(parsed)
        } else {
            Err(
                ArgError::WrongNumberOfValues {
                    got: values.len() as usize,
                    expected: expected_len as usize,
                },
            )
        },
    }
}

/// A selection that succeeds names one installed GPU for each index text,
/// in the order given.
pub proof fn selection_names_installed_gpus(ids: Seq<String>, gpu_count: nat)
    requires
        selection(ids, gpu_count) is Ok,
    ensures
        ids.len() > 0,
        selection(ids, gpu_count)->Ok_0.len() == ids.len(),
        forall|i: int|
            0 <= i < ids.len() ==> {
                &&& (#[trigger] selection(ids, gpu_count)->Ok_0[i]) < gpu_count
                &&& usize_of(ids[i]@) == Some(selection(ids, gpu_count)->Ok_0[i])
            },
{
    lemma_select_prefix_ok(ids, ids.len(), gpu_count);
}

proof fn lemma_select_prefix_ok(ids: Seq<String>, n: nat, gpu_count: nat)
    requires
        n <= ids.len(),
        select_prefix(ids, n, gpu_count) is Ok,
    ensures
        select_prefix(ids, n, gpu_count)->Ok_0.len() == n,
        forall|i: int|
            0 <= i < n ==> {
                &&& (#[trigger] select_prefix(ids, n, gpu_count)->Ok_0[i]) < gpu_count
                &&& usize_of(ids[i]@) == Some(select_prefix(ids, n, gpu_count)->Ok_0[i])
            },
    decreases n,
{
    if n > 0 {
        lemma_select_prefix_ok(ids, (n - 1) as nat, gpu_count);
    }
}

/// The numbers read from the first `n` value texts are one for each text.
pub proof fn lemma_parse_prefix_ok(values: Seq<String>, n: nat)
    requires
        n <= values.len(),
        parse_prefix(values, n) is Ok,
    ensures
        parse_prefix(values, n)->Ok_0.len() == n,
        forall|i: int|
            0 <= i < n ==> i32_of(values[i]@) == Some(
                #[trigger] parse_prefix(values, n)->Ok_0[i],
            ),
    decreases n,
{
    if n > 0 {
        lemma_parse_prefix_ok(values, (n - 1) as nat);
    }
}

/// Once a prefix of the index texts is refused, every longer prefix is
/// refused with the same error.
proof fn lemma_select_error_stays(ids: Seq<String>, m: nat, n: nat, gpu_count: nat)
    requires
        m <= n,
        select_prefix(ids, m, gpu_count) is Err,
    ensures
        select_prefix(ids, n, gpu_count) == select_prefix(ids, m, gpu_count),
    decreases n - m,
{
    if m < n {
        lemma_select_error_stays(ids, m, (n - 1) as nat, gpu_count);
    }
}

/// Once a prefix of the value texts is refused, every longer prefix is
/// refused with the same error.
proof fn lemma_parse_error_stays(values: Seq<String>, m: nat, n: nat)
    requires
        m <= n,
        parse_prefix(values, m) is Err,
    ensures
        parse_prefix(values, n) == parse_prefix(values, m),
    decreases n - m,
{
    if m < n {
        lemma_parse_error_stays(values, m, (n - 1) as nat);
    }
}

/// Reads the selected GPU indexes, in the order given, out of `ids`, where
/// `gpu_count` GPUs are installed. The first index text that is not a
/// number, or that names no installed GPU, is reported; so is an empty list.
pub fn select_gpus(ids: &Vec<String>, gpu_count: usize) -> (r: Result<Vec<usize>, ArgError>)
    ensures
        seq_result(r) == selection(ids@, gpu_count as nat),
{
    if ids.len() == 0 {
        return Err(ArgError::MissingIds);
    }
    let mut selected: Vec<usize> = Vec::new();
    let mut j: usize = 0;
    while j < ids.len()
        invariant
            j <= ids.len(),
            select_prefix(ids@, j as nat, gpu_count as nat) == Ok::<Seq<usize>, ArgError>(
                selected@,
            ),
        decreases ids.len() - j,
    {
        match parse_usize(ids[j].as_str()) {
            Some(index) => {
                if index >= gpu_count {
                    proof {
                        lemma_select_error_stays(ids@, (j + 1) as nat, ids.len() as nat, gpu_count as nat);
                    }
                    return Err(ArgError::IndexOutOfRange { position: j, index });
                }
                selected.push(index);
            },
            None => {
                proof {
                    lemma_select_error_stays(ids@, (j + 1) as nat, ids.len() as nat, gpu_count as nat);
                }
                return Err(ArgError::InvalidIndex { position: j });
            },
        }
        j = j + 1;
    }
    Ok(selected)
}

/// Reads the values of an option that was given the texts `vals`, one per
/// selected GPU, `expected_len` in all.
pub fn parse_values(vals: &Vec<String>, expected_len: usize) -> (r: Result<Vec<i32>, ArgError>)
    ensures
        seq_result(r) == option_values(vals@, expected_len as nat),
        r is Ok ==> r->Ok_0.len() == expected_len,
{
    let mut parsed: Vec<i32> = Vec::new();
    let mut j: usize = 0;
    while j < vals.len()
        invariant
            j <= vals.len(),
            parsed.len() == j,
            parse_prefix(vals@, j as nat) == Ok::<Seq<i32>, ArgError>(parsed@),
        decreases vals.len() - j,
    {
        match parse_i32(vals[j].as_str()) {
            Some(v) => {
                parsed.push(v);
            },
            None => {
                proof {
                    lemma_parse_error_stays(vals@, (j + 1) as nat, vals.len() as nat);
                }
                return Err(ArgError::InvalidValue { position: j });
            },
        }
        j = j + 1;
    }
    if vals.len() != expected_len {
        return Err(ArgError::WrongNumberOfValues { got: vals.len(), expected: expected_len });
    }
    Ok(parsed)
}

/// Reads the values given to an option, one per selected GPU. An option that
/// was not given (`None`) stays `None`; the values of one that was are read
/// by `parse_values`.
pub fn parse_arg(values: &Option<Vec<String>>, expected_len: usize) -> (r: Result<
    Option<Vec<i32>>,
    ArgError,
>)
    ensures
        match values {
            None => r == Ok::<Option<Vec<i32>>, ArgError>(None),
            Some(vals) => match r {
                Ok(Some(parsed)) => {
                    &&& option_values(vals@, expected_len as nat) == Ok::<Seq<i32>, ArgError>(
                        parsed@,
                    )
                    &&& parsed.len() == expected_len
                },
                Ok(None) => false,
                Err(e) => option_values(vals@, expected_len as nat) == Err::<Seq<i32>, ArgError>(
                    e,
                ),
            },
        },
{
    match values {
        None => Ok(None),
        Some(vals) => match parse_values(vals, expected_len) {
            Ok(parsed) => Ok(Some(parsed)),
            Err(e) => Err(e),
        },
    }
}

} // verus!
