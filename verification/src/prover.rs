//! The prover-side task configuration: the arguments handed to a proving
//! task through its environment, assembled and validated here from plain
//! values, and the exact request bodies the prover reports results with.
//! Reading the environment and carrying the bytes over the network stay
//! with the caller.

use vstd::prelude::*;
use vstd::string::StringSliceAdditionalSpecFns;

verus! {

/// The arguments a proving task is configured with.
#[derive(Debug, Clone)]
pub struct EnvArgs {
    pub receive_proof_url: String,
    pub task_id: u64,
    pub task_type: u64,
    pub zk_type: String,
    pub name_space: String,
    pub input_params: InputArgs,
}

/// The input parameters of a proving task.
#[derive(Debug, Clone)]
pub struct InputArgs {
    pub nonce_ex: u64,
    pub nonce_len: u64,
    pub address: String,
    pub min_proof_target: u64,
}

/// Which part of the task configuration was missing or unusable.
#[derive(Clone, Copy, Debug, PartialEq, Eq, Structural)]
pub enum EnvArgError {
    MissingReceiveProofUrl,
    MissingTaskId,
    InvalidTaskId,
    MissingTaskType,
    InvalidTaskType,
    MissingZkType,
    MissingNameSpace,
    MissingInputParams,
}

/// Returns whether a byte is a decimal digit.
pub open spec fn is_dec_digit(b: u8) -> bool {
    48 <= b <= 57
}

/// Returns whether every byte of the sequence is a decimal digit.
pub open spec fn all_dec_digits(bs: Seq<u8>) -> bool {
    forall|i: int| 0 <= i < bs.len() ==> is_dec_digit(#[trigger] bs[i])
}

/// The value of a sequence of decimal digits, most significant first.
pub open spec fn dec_value(bs: Seq<u8>) -> int
    decreases bs.len(),
{
    if bs.len() == 0 {
        0
    } else {
        dec_value(bs.drop_last()) * 10 + (bs.last() - 48)
    }
}

/// Returns whether a byte sequence reads as a `u64`: nonempty, all
/// decimal digits, and within range.
pub open spec fn reads_as_u64(bs: Seq<u8>) -> bool {
    bs.len() > 0 && all_dec_digits(bs) && dec_value(bs) <= u64::MAX
}

proof fn lemma_dec_value_nonneg(bs: Seq<u8>)
    requires
        all_dec_digits(bs),
    ensures
        dec_value(bs) >= 0,
    decreases bs.len(),
{
    if bs.len() > 0 {
        assert(all_dec_digits(bs.drop_last()));
        lemma_dec_value_nonneg(bs.drop_last());
        assert(dec_value(bs.drop_last()) * 10 >= 0) by (nonlinear_arith)
            requires
                dec_value(bs.drop_last()) >= 0,
        ;
    }
}

proof fn lemma_dec_value_prefix_le(bs: Seq<u8>, j: int)
    requires
        0 <= j <= bs.len(),
        all_dec_digits(bs),
    ensures
        dec_value(bs.take(j)) <= dec_value(bs),
    decreases bs.len() - j,
{
    if j < bs.len() {
        assert(bs.take(j + 1).drop_last() =~= bs.take(j));
        assert(bs.take(j + 1).last() == bs[j]);
        assert(all_dec_digits(bs.take(j)));
        lemma_dec_value_nonneg(bs.take(j));
        assert(dec_value(bs.take(j)) * 10 + (bs[j] - 48) >= dec_value(bs.take(j)))
            by (nonlinear_arith)
            requires
                dec_value(bs.take(j)) >= 0,
                48 <= bs[j] <= 57,
        ;
        lemma_dec_value_prefix_le(bs, j + 1);
    } else {
        assert(bs.take(j) =~= bs);
    }
}

/// Reads a `u64` from its decimal text. Returns the value exactly when
/// the text is nonempty, is all decimal digits, and fits; returns nothing
/// otherwise.
pub fn parse_u64(s: &str) -> (r: Option<u64>)
    ensures
        reads_as_u64(s.spec_bytes()) ==> (r matches Some(n) && n == dec_value(s.spec_bytes())),
        !reads_as_u64(s.spec_bytes()) ==> r is None,
{
    let bytes = s.as_bytes();
    if bytes.len() == 0 {
        return None;
    }
    let mut acc: u64 = 0;
    let mut i: usize = 0;
    while i < bytes.len()
        invariant
            bytes@ == s.spec_bytes(),
            0 < bytes@.len(),
            i <= bytes@.len(),
            all_dec_digits(bytes@.take(i as int)),
            acc == dec_value(bytes@.take(i as int)),
        decreases bytes@.len() - i,
    {
        let b = bytes[i];
        if b < 48 || b > 57 {
            proof {
                assert(!is_dec_digit(s.spec_bytes()[i as int]));
            }
            return None;
        }
        let d = (b - 48) as u64;
        proof {
            assert(bytes@.take(i as int + 1).drop_last() =~= bytes@.take(i as int));
            assert(bytes@.take(i as int + 1).last() == bytes@[i as int]);
            assert(all_dec_digits(bytes@.take(i as int + 1)));
        }
        if acc > u64::MAX / 10 {
            proof {
                assert(dec_value(bytes@.take(i as int + 1)) > u64::MAX) by (nonlinear_arith)
                    requires
                        dec_value(bytes@.take(i as int + 1)) == acc * 10 + d,
                        acc > u64::MAX / 10,
                        d >= 0,
                ;
                if all_dec_digits(bytes@) {
                    lemma_dec_value_prefix_le(bytes@, i as int + 1);
                }
            }
            return None;
        }
        let acc10 = acc * 10;
        if acc10 > u64::MAX - d {
            proof {
                assert(dec_value(bytes@.take(i as int + 1)) > u64::MAX);
                if all_dec_digits(bytes@) {
                    lemma_dec_value_prefix_le(bytes@, i as int + 1);
                }
            }
            return None;
        }
        acc = acc10 + d;
        i = i + 1;
    }
    proof {
        assert(bytes@.take(i as int) =~= bytes@);
    }
    Some(acc)
}

/// Which outcome [`parse_env_args`] owes for the given environment: the
/// variables are consulted in order, the first missing one is reported,
/// and a task ID or task type that does not read as a number is reported
/// as invalid.
pub open spec fn env_args_outcome(
    receive_proof_url: Option<Seq<char>>,
    task_id: Option<Seq<u8>>,
    task_type: Option<Seq<u8>>,
    zk_type: Option<Seq<char>>,
    name_space: Option<Seq<char>>,
    has_input_params: bool,
) -> Result<(), EnvArgError> {
    if receive_proof_url is None {
        Err(EnvArgError::MissingReceiveProofUrl)
    } else if task_id is None {
        Err(EnvArgError::MissingTaskId)
    } else if !reads_as_u64(task_id->Some_0) {
        Err(EnvArgError::InvalidTaskId)
    } else if task_type is None {
        Err(EnvArgError::MissingTaskType)
    } else if !reads_as_u64(task_type->Some_0) {
        Err(EnvArgError::InvalidTaskType)
    } else if zk_type is None {
        Err(EnvArgError::MissingZkType)
    } else if name_space is None {
        Err(EnvArgError::MissingNameSpace)
    } else if !has_input_params {
        Err(EnvArgError::MissingInputParams)
    } else {
        Ok(())
    }
}

/// The byte text of an optional text value.
pub open spec fn opt_bytes(s: Option<String>) -> Option<Seq<u8>> {
    match s {
        Some(v) => Some(vstd::utf8::encode_utf8(v@)),
        None => None,
    }
}

/// The characters of an optional text value.
pub open spec fn opt_chars(s: Option<String>) -> Option<Seq<char>> {
    match s {
        Some(v) => Some(v@),
        None => None,
    }
}

/// Assembles the task configuration from the values read out of the
/// environment. Success and each failure come exactly as
/// [`env_args_outcome`] says; on success every field carries the value it
/// was handed, with the task ID and task type read as numbers.
pub fn parse_env_args(
    receive_proof_url: Option<String>,
    task_id: Option<String>,
    task_type: Option<String>,
    zk_type: Option<String>,
    name_space: Option<String>,
    input_params: Option<InputArgs>,
) -> (r: Result<EnvArgs, EnvArgError>)
    ensures
        ({
            let outcome = env_args_outcome(
                opt_chars(receive_proof_url),
                opt_bytes(task_id),
                opt_bytes(task_type),
                opt_chars(zk_type),
                opt_chars(name_space),
                input_params is Some,
            );
            &&& (outcome matches Err(e) ==> r == Result::<EnvArgs, EnvArgError>::Err(e))
            &&& (outcome is Ok ==> (r matches Ok(a) && a.receive_proof_url@
                == receive_proof_url->Some_0@ && a.task_id == dec_value(vstd::utf8::encode_utf8(task_id->Some_0@)) && a.task_type == dec_value(vstd::utf8::encode_utf8(task_type->Some_0@)) && a.zk_type@
                == zk_type->Some_0@ && a.name_space@ == name_space->Some_0@ && a.input_params
                == input_params->Some_0))
        }),
{
    let receive_proof_url = match receive_proof_url {
        Some(url) => url,
        None => {
            return Err(EnvArgError::MissingReceiveProofUrl);
        },
    };
    let task_id = match task_id {
        Some(tid) => match parse_u64(tid.as_str()) {
            Some(n) => n,
            None => {
                return Err(EnvArgError::InvalidTaskId);
            },
        },
        None => {
            return Err(EnvArgError::MissingTaskId);
        },
    };
    let task_type = match task_type {
        Some(tty) => match parse_u64(tty.as_str()) {
            Some(n) => n,
            None => {
                return Err(EnvArgError::InvalidTaskType);
            },
        },
        None => {
            return Err(EnvArgError::MissingTaskType);
        },
    };
    let zk_type = match zk_type {
        Some(zk) => zk,
        None => {
            return Err(EnvArgError::MissingZkType);
        },
    };
    let name_space = match name_space {
        Some(ns) => ns,
        None => {
            return Err(EnvArgError::MissingNameSpace);
        },
    };
    let input_params = match input_params {
        Some(params) => params,
        None => {
            return Err(EnvArgError::MissingInputParams);
        },
    };
    Ok(
        EnvArgs {
            receive_proof_url,
            task_id,
            task_type,
            zk_type,
            name_space,
            input_params,
        },
    )
}

/// The decimal text of a number, most significant digit first, with no
/// leading zero.
pub open spec fn dec_digits(n: nat) -> Seq<u8>
    decreases n,
{
    if n < 10 {
        seq![(n + 48) as u8]
    } else {
        dec_digits(n / 10).push((n % 10 + 48) as u8)
    }
}

/// Law: writing a number as decimal text yields digits whose value is the
/// number, so text written by [`u64_to_dec_bytes`] reads back through
/// [`parse_u64`] as the number it came from.
pub proof fn lemma_dec_digits_round_trip(n: nat)
    ensures
        all_dec_digits(dec_digits(n)),
        dec_value(dec_digits(n)) == n,
        reads_as_u64(dec_digits(n)) == (n <= u64::MAX),
    decreases n,
{
    if n < 10 {
        assert(dec_digits(n) =~= seq![(n + 48) as u8]);
        assert(dec_digits(n).drop_last() =~= Seq::<u8>::empty());
        assert(dec_value(Seq::<u8>::empty()) == 0);
        assert(dec_value(dec_digits(n)) == dec_value(Seq::<u8>::empty()) * 10 + ((n + 48) as u8
            - 48));
    } else {
        lemma_dec_digits_round_trip(n / 10);
        assert(dec_digits(n).drop_last() =~= dec_digits(n / 10));
        assert(dec_digits(n).last() == (n % 10 + 48) as u8);
        assert(n % 10 < 10);
        assert((n % 10 + 48) as u8 - 48 == n % 10);
        vstd::arithmetic::div_mod::lemma_fundamental_div_mod(n as int, 10);
        assert(dec_value(dec_digits(n)) == dec_value(dec_digits(n / 10)) * 10 + (n % 10));
        assert forall|i: int| 0 <= i < dec_digits(n).len() implies is_dec_digit(
            #[trigger] dec_digits(n)[i],
        ) by {
            if i < dec_digits(n).len() - 1 {
                assert(dec_digits(n)[i] == dec_digits(n / 10)[i]);
            }
        }
    }
}

/// Writes a number as its decimal text.
pub fn u64_to_dec_bytes(n: u64) -> (r: Vec<u8>)
    ensures
        r@ == dec_digits(n as nat),
{
    let mut rev: Vec<u8> = Vec::new();
    let mut x: u64 = n;
    while x >= 10
        invariant
            dec_digits(n as nat) =~= dec_digits(x as nat) + rev@.reverse(),
        decreases x,
    {
        let ghost x0 = x as nat;
        let ghost rev0 = rev@;
        let d: u8 = (x % 10) as u8 + 48;
        rev.push(d);
        x = x / 10;
        proof {
            assert(dec_digits(x0) == dec_digits(x as nat).push(d));
            assert(rev@.reverse() =~= seq![d] + rev0.reverse());
            assert(dec_digits(x as nat) + rev@.reverse() =~= (dec_digits(x as nat).push(d))
                + rev0.reverse());
        }
    }
    let mut out: Vec<u8> = Vec::new();
    out.push(x as u8 + 48);
    proof {
        assert(dec_digits(x as nat) =~= seq![(x as nat + 48) as u8]);
        assert(out@ =~= dec_digits(x as nat) + rev@.reverse().take(0));
    }
    let mut i: usize = rev.len();
    while i > 0
        invariant
            i <= rev@.len(),
            dec_digits(n as nat) =~= dec_digits(x as nat) + rev@.reverse(),
            out@ =~= dec_digits(x as nat) + rev@.reverse().take(rev@.len() - i),
        decreases i,
    {
        i = i - 1;
        out.push(rev[i]);
        proof {
            assert(rev@.reverse()[rev@.len() - i - 1] == rev@[i as int]);
            assert(out@ =~= dec_digits(x as nat) + rev@.reverse().take(rev@.len() - i));
        }
    }
    proof {
        assert(rev@.reverse().take(rev@.len() as int) =~= rev@.reverse());
        assert(out@ =~= dec_digits(n as nat));
    }
    out
}

/// Appends the given bytes.
fn append_bytes(dst: &mut Vec<u8>, src: &[u8])
    ensures
        final(dst)@ =~= old(dst)@ + src@,
{
    let mut i: usize = 0;
    while i < src.len()
        invariant
            i <= src@.len(),
            dst@ =~= old(dst)@ + src@.take(i as int),
        decreases src@.len() - i,
    {
        dst.push(src[i]);
        proof {
            assert(dst@ =~= old(dst)@ + src@.take(i as int + 1));
        }
        i = i + 1;
    }
    proof {
        assert(src@.take(src@.len() as int) =~= src@);
    }
}

/// The report line a prover submits with a finished proof: its task,
/// nonce, solution, proof and target, labelled and comma-separated.
pub open spec fn proof_summary(
    task_id: u64,
    nonce: u64,
    solution: Seq<u8>,
    proof_text: Seq<u8>,
    target: u64,
) -> Seq<u8> {
    "task_id:".spec_bytes() + dec_digits(task_id as nat) + ",nonce:".spec_bytes() + dec_digits(
        nonce as nat,
    ) + ",solution:".spec_bytes() + solution + ",proof:".spec_bytes() + proof_text
        + ",target:".spec_bytes() + dec_digits(target as nat)
}

/// Builds the proof-summary line, byte for byte as [`proof_summary`]
/// spells it.
pub fn proof_summary_bytes(
    task_id: u64,
    nonce: u64,
    solution: &str,
    proof_text: &str,
    target: u64,
) -> (r: Vec<u8>)
    ensures
        r@ == proof_summary(
            task_id,
            nonce,
            solution.spec_bytes(),
            proof_text.spec_bytes(),
            target,
        ),
{
    let mut out: Vec<u8> = Vec::new();
    append_bytes(&mut out, "task_id:".as_bytes());
    let tid = u64_to_dec_bytes(task_id);
    append_bytes(&mut out, tid.as_slice());
    append_bytes(&mut out, ",nonce:".as_bytes());
    let non = u64_to_dec_bytes(nonce);
    append_bytes(&mut out, non.as_slice());
    append_bytes(&mut out, ",solution:".as_bytes());
    append_bytes(&mut out, solution.as_bytes());
    append_bytes(&mut out, ",proof:".as_bytes());
    append_bytes(&mut out, proof_text.as_bytes());
    append_bytes(&mut out, ",target:".as_bytes());
    let tgt = u64_to_dec_bytes(target);
    append_bytes(&mut out, tgt.as_slice());
    proof {
        assert(out@ =~= proof_summary(
            task_id,
            nonce,
            solution.spec_bytes(),
            proof_text.spec_bytes(),
            target,
        ));
    }
    out
}

/// The body of the request that reports a finished proof: a JSON object
/// carrying the task ID, task type, proof summary, proof kind and
/// namespace, laid out exactly as the prover sends it.
pub open spec fn post_body(
    task_id: u64,
    task_type: u64,
    proof_text: Seq<u8>,
    zk_type: Seq<u8>,
    name_space: Seq<u8>,
) -> Seq<u8> {
    "\n        {\n            \"task_id\": \"".spec_bytes() + dec_digits(task_id as nat)
        + "\",\n            \"task_type\": \"".spec_bytes() + dec_digits(task_type as nat)
        + "\",\n            \"proof\": \"".spec_bytes() + proof_text
        + "\",\n            \"zk_type\": \"".spec_bytes() + zk_type
        + "\",\n            \"name_space\": \"".spec_bytes() + name_space
        + "\"\n        }\n        ".spec_bytes()
}

/// Builds the proof-report request body, byte for byte as [`post_body`]
/// spells it.
pub fn post_body_bytes(
    task_id: u64,
    task_type: u64,
    proof_text: &[u8],
    zk_type: &str,
    name_space: &str,
) -> (r: Vec<u8>)
    ensures
        r@ == post_body(
            task_id,
            task_type,
            proof_text@,
            zk_type.spec_bytes(),
            name_space.spec_bytes(),
        ),
{
    let mut out: Vec<u8> = Vec::new();
    append_bytes(&mut out, "\n        {\n            \"task_id\": \"".as_bytes());
    let tid = u64_to_dec_bytes(task_id);
    append_bytes(&mut out, tid.as_slice());
    append_bytes(&mut out, "\",\n            \"task_type\": \"".as_bytes());
    let tty = u64_to_dec_bytes(task_type);
    append_bytes(&mut out, tty.as_slice());
    append_bytes(&mut out, "\",\n            \"proof\": \"".as_bytes());
    append_bytes(&mut out, proof_text);
    append_bytes(&mut out, "\",\n            \"zk_type\": \"".as_bytes());
    append_bytes(&mut out, zk_type.as_bytes());
    append_bytes(&mut out, "\",\n            \"name_space\": \"".as_bytes());
    append_bytes(&mut out, name_space.as_bytes());
    append_bytes(&mut out, "\"\n        }\n        ".as_bytes());
    proof {
        assert(out@ =~= post_body(
            task_id,
            task_type,
            proof_text@,
            zk_type.spec_bytes(),
            name_space.spec_bytes(),
        ));
    }
    out
}

} // verus!
