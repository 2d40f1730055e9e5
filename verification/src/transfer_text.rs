//! Recognisable test text: runs of one character each, separated by dashes,
//! so that a gap or a repetition in a transfer is easy to spot.
use vstd::prelude::*;
use vstd::string::{StrSliceExecFns, StringExecFns};
use vstd::arithmetic::div_mod::lemma_fundamental_div_mod_converse;

verus! {

/// Number of times that each character is repeated in
/// [`data_transfer_string`].
pub const DATA_TRANSFER_SEQUENCE_LENGTH: usize = 64;

/// Number of dashes after each run.
pub const DATA_TRANSFER_DELIMITER_LENGTH: usize = 4;

/// The characters that the runs are made of, in the order of their runs.
pub open spec fn transfer_characters() -> Seq<char> {
    "0123456789ABCDEFGHIJKLMNOPQRSTUVWXYZ@#$%&*+=_"@
}

/// The character at `offset` of the endless pattern: for each of the
/// [`transfer_characters`] in turn a run of `sequence_len` copies and four
/// dashes, and after the last of them the first again.
pub open spec fn pattern_char(offset: int, sequence_len: int) -> char {
    let period = sequence_len + DATA_TRANSFER_DELIMITER_LENGTH;
    let within = offset % (transfer_characters().len() * period);
    if within % period < sequence_len {
        transfer_characters()[within / period]
    } else {
        '-'
    }
}

/// The first `len` characters of `start` followed by the endless pattern.
pub open spec fn transfer_text(start: Seq<char>, len: nat, sequence_len: nat) -> Seq<char> {
    Seq::new(
        len,
        |i: int|
            if i < start.len() {
                start[i]
            } else {
                pattern_char(i - start.len(), sequence_len as int)
            },
    )
}

/// The character of the pattern at a place given by the number of whole
/// cycles before it, the run it lies in, and its place in that run or in
/// the dashes after it.
proof fn lemma_pattern_char_at(cycles: int, block: int, within_block: int, sequence_len: int)
    requires
        0 <= cycles,
        0 <= block < transfer_characters().len(),
        0 <= sequence_len,
        0 <= within_block < sequence_len + DATA_TRANSFER_DELIMITER_LENGTH,
    ensures
        pattern_char(
            cycles * (transfer_characters().len() * (sequence_len
                + DATA_TRANSFER_DELIMITER_LENGTH)) + block * (sequence_len
                + DATA_TRANSFER_DELIMITER_LENGTH) + within_block,
            sequence_len,
        ) == if within_block < sequence_len {
            transfer_characters()[block]
        } else {
            '-'
        },
{
    let period = sequence_len + DATA_TRANSFER_DELIMITER_LENGTH;
    let count = transfer_characters().len() as int;
    let inner = block * period + within_block;
    assert(0 <= inner < count * period) by (nonlinear_arith)
        requires
            0 <= block < count,
            0 <= within_block < period,
            inner == block * period + within_block,
    ;
    let offset = cycles * (count * period) + inner;
    lemma_fundamental_div_mod_converse(offset, count * period, cycles, inner);
    lemma_fundamental_div_mod_converse(inner, period, block, within_block);
}

/// The text that continues `start_string` with the pattern of runs of
/// `sequence_len` characters up to `len` characters in all; a start that is
/// longer than `len` is cut to `len` characters.
pub fn add_data_transfer_string(start_string: &str, len: usize, sequence_len: usize) -> (text:
    String)
    ensures
        text@ == transfer_text(start_string@, len as nat, sequence_len as nat),
{
    let characters = "0123456789ABCDEFGHIJKLMNOPQRSTUVWXYZ@#$%&*+=_";
    proof {
        reveal_strlit("0123456789ABCDEFGHIJKLMNOPQRSTUVWXYZ@#$%&*+=_");
        reveal_strlit("-");
    }
    let start_len = start_string.unicode_len();
    if start_len >= len {
        let text = String::from_str(start_string.substring_char(0, len));
        assert(text@ =~= transfer_text(start_string@, len as nat, sequence_len as nat));
        return text;
    }
    let mut text = String::from_str(start_string);
    let mut count: usize = start_len;
    let mut block: usize = 0;
    let mut run: usize = 0;
    let mut dashes: usize = 0;
    let ghost mut cycles: int = 0;
    let ghost period: int = sequence_len + DATA_TRANSFER_DELIMITER_LENGTH;
    assert(text@ =~= transfer_text(start_string@, count as nat, sequence_len as nat));
    while count < len
        invariant
            characters@ == transfer_characters(),
            characters@.len() == 45,
            "-"@ == seq!['-'],
            start_len == start_string@.len(),
            start_len <= count <= len,
            period == sequence_len + DATA_TRANSFER_DELIMITER_LENGTH,
            0 <= cycles,
            block < 45,
            run <= sequence_len,
            dashes < DATA_TRANSFER_DELIMITER_LENGTH,
            dashes > 0 ==> run == sequence_len,
            count - start_len == cycles * (45 * period) + block * period + run + dashes,
            text@ == transfer_text(start_string@, count as nat, sequence_len as nat),
        decreases len - count,
    {
        proof {
            lemma_pattern_char_at(cycles, block as int, run + dashes, sequence_len as int);
        }
        let ghost before = text@;
        if run < sequence_len {
            text.append(characters.substring_char(block, block + 1));
            run += 1;
            assert(text@ =~= before.push(transfer_characters()[block as int]));
        } else {
            text.append("-");
            dashes += 1;
            assert(text@ =~= before.push('-'));
            if dashes == DATA_TRANSFER_DELIMITER_LENGTH {
                dashes = 0;
                run = 0;
                block += 1;
                if block == 45 {
                    block = 0;
                    proof {
                        assert(cycles * (45 * period) + 44 * period + sequence_len + 4 == (cycles
                            + 1) * (45 * period)) by (nonlinear_arith)
                            requires
                                period == sequence_len + 4,
                        ;
                        cycles = cycles + 1;
                    }
                } else {
                    assert((block - 1) * period + sequence_len + 4 == block * period)
                        by (nonlinear_arith)
                        requires
                            period == sequence_len + 4,
                    ;
                }
            }
        }
        count += 1;
        assert(text@ =~= transfer_text(start_string@, count as nat, sequence_len as nat));
    }
    text
}

/// A test text of `len` characters: runs of
/// [`DATA_TRANSFER_SEQUENCE_LENGTH`] copies of each of the
/// [`transfer_characters`] in turn, four dashes after each run.
pub fn data_transfer_string(len: usize) -> (text: String)
    ensures
        text@ == transfer_text(
            Seq::<char>::empty(),
            len as nat,
            DATA_TRANSFER_SEQUENCE_LENGTH as nat,
        ),
{
    proof {
        reveal_strlit("");
    }
    let text = add_data_transfer_string("", len, DATA_TRANSFER_SEQUENCE_LENGTH);
    assert(""@ =~= Seq::<char>::empty());
    text
}

} // verus!
