//! What holds of every step of the machine, stated over its mathematical
//! state and proved once for all programs.

use vstd::prelude::*;
use crate::gamble_f::{GambleAction, MachineState};
use crate::nesting::{
    closes_at, lemma_net_depth_split, net_depth, occurrences, opens_at, span_depth, well_nested,
};

verus! {

impl MachineState {
    /// The state after `n` steps.
    pub open spec fn run(self, n: nat) -> MachineState
        decreases n,
    {
        if n == 0 {
            self
        } else {
            self.run((n - 1) as nat).step()
        }
    }

    /// What the next `n` steps hand to the host, step by step.
    pub open spec fn trace(self, n: nat) -> Seq<Option<GambleAction>> {
        Seq::new(n, |i: int| self.run(i as nat).action())
    }

    /// The same state with the cursor on the first opcode.
    pub open spec fn rewound(self) -> MachineState {
        MachineState { code_pointer: 0, ..self }
    }
}

/// The bracket that a skip lands on is the one from which a loop-back
/// returns to where the skip began: both ways name the same pair.
pub proof fn lemma_partners_agree(code: Seq<char>, open: int, close: int)
    ensures
        closes_at(code, open, close) <==> opens_at(code, close, open),
{
    reveal_with_fuel(occurrences, 2);
    if closes_at(code, open, close) {
        assert(span_depth(code, open, close - 1) > 0);
        assert forall|k: int| open < k <= close implies span_depth(code, k, close) < 0 by {
            lemma_net_depth_split(code, open, k, close + 1);
            assert(span_depth(code, open, k - 1) > 0);
        }
    }
    if opens_at(code, close, open) {
        assert(span_depth(code, open + 1, close) < 0);
        lemma_net_depth_split(code, open, open + 1, close + 1);
        assert forall|k: int| open <= k < close implies span_depth(code, open, k) > 0 by {
            lemma_net_depth_split(code, open, k + 1, close + 1);
            assert(span_depth(code, k + 1, close) < 0);
        }
    }
}

/// In a well-nested program the loop opened at `open` is closed somewhere
/// behind `pos`, if it is still open at every position up to `pos`.
proof fn lemma_close_exists(code: Seq<char>, open: int, pos: int) -> (close: int)
    requires
        well_nested(code),
        0 <= open <= pos < code.len(),
        code[open] == '[',
        forall|k: int| open <= k <= pos ==> span_depth(code, open, k) > 0,
    ensures
        closes_at(code, open, close),
    decreases code.len() - pos,
{
    if pos + 1 == code.len() {
        lemma_net_depth_split(code, 0, open, code.len() as int);
        assert(net_depth(code, 0, open) >= 0);
        assert(span_depth(code, open, pos) > 0);
        assert(false);
        pos
    } else if span_depth(code, open, pos + 1) == 0 {
        pos + 1
    } else {
        assert(span_depth(code, open, pos) > 0);
        lemma_close_exists(code, open, pos + 1)
    }
}

/// In a well-nested program the loop closed at `close` is opened somewhere
/// before `pos`, if it is still closed at every position down to `pos`.
proof fn lemma_open_exists(code: Seq<char>, close: int, pos: int) -> (open: int)
    requires
        well_nested(code),
        0 <= pos <= close < code.len(),
        code[close] == ']',
        forall|k: int| pos <= k <= close ==> span_depth(code, k, close) < 0,
    ensures
        opens_at(code, close, open),
    decreases pos,
{
    if pos == 0 {
        assert(span_depth(code, 0, close) < 0);
        assert(net_depth(code, 0, close + 1) >= 0);
        assert(false);
        pos
    } else {
        lemma_net_depth_split(code, pos - 1, pos, close + 1);
        reveal_with_fuel(occurrences, 2);
        assert(span_depth(code, pos, close) < 0);
        if span_depth(code, pos - 1, close) == 0 {
            pos - 1
        } else {
            lemma_open_exists(code, close, pos - 1)
        }
    }
}

/// A machine whose program is well nested and not empty can always take
/// its next step: every bracket that has to jump finds its partner.
pub proof fn lemma_well_nested_can_step(s: MachineState)
    requires
        s.wf(),
        s.code.len() > 0,
        well_nested(s.code),
    ensures
        s.can_step(),
{
    reveal_with_fuel(occurrences, 2);
    if s.opcode() == '[' {
        let close: int = lemma_close_exists(s.code, s.pc(), s.pc());
        assert(closes_at(s.code, s.pc(), close));
    }
    if s.opcode() == ']' {
        let open: int = lemma_open_exists(s.code, s.pc(), s.pc());
        assert(opens_at(s.code, s.pc(), open));
    }
}

/// A step that can be taken leaves the machine in good order, with the
/// same program.
pub proof fn lemma_step_keeps_wf(s: MachineState)
    requires
        s.wf(),
        s.can_step(),
    ensures
        s.step().wf(),
        s.step().code == s.code,
{
}

/// A machine whose program is well nested and not empty never gets
/// stuck: after any number of steps it is in good order and can step again.
pub proof fn lemma_runs_on(s: MachineState, n: nat)
    requires
        s.wf(),
        s.code.len() > 0,
        well_nested(s.code),
    ensures
        s.run(n).wf(),
        s.run(n).code == s.code,
        s.run(n).can_step(),
    decreases n,
{
    if n > 0 {
        lemma_runs_on(s, (n - 1) as nat);
        lemma_step_keeps_wf(s.run((n - 1) as nat));
    }
    lemma_well_nested_can_step(s.run(n));
}

/// `<` on the first cell moves the data pointer to the last cell, `>` on
/// the last cell moves it to the first; elsewhere they move it by one.
/// Neither touches the tape.
pub proof fn lemma_pointer_wraps(s: MachineState)
    requires
        s.wf(),
    ensures
        s.opcode() == '<' ==> s.step().mem_pointer == (if s.mem_pointer == 0 {
            255
        } else {
            s.mem_pointer - 1
        }),
        s.opcode() == '>' ==> s.step().mem_pointer == (if s.mem_pointer == 255 {
            0
        } else {
            s.mem_pointer + 1
        }),
        s.opcode() == '<' || s.opcode() == '>' ==> s.step().memory == s.memory && s.action()
            is None && s.step().code_pointer == s.pc() + 1,
{
    if s.opcode() == '<' || s.opcode() == '>' {
        assert(s.step().memory =~= s.memory);
    }
}

/// `+` on a cell at its largest value leaves 0, `-` on a cell at 0 leaves
/// the largest value; elsewhere they change the cell by one. No other
/// cell changes, and the data pointer stays.
pub proof fn lemma_cell_wraps(s: MachineState)
    requires
        s.wf(),
    ensures
        s.opcode() == '+' ==> s.step().cell() == (if s.cell() == usize::MAX {
            0
        } else {
            s.cell() + 1
        }),
        s.opcode() == '-' ==> s.step().cell() == (if s.cell() == 0 {
            usize::MAX as int
        } else {
            s.cell() - 1
        }),
        s.opcode() == '+' || s.opcode() == '-' ==> s.step().mem_pointer == s.mem_pointer
            && s.action() is None && s.step().code_pointer == s.pc() + 1 && forall|i: int|
            0 <= i < s.memory.len() && i != s.mem_pointer ==> s.step().memory[i] == s.memory[i],
{
}

/// `[` over a cell that is not zero is passed by; over a zero cell it
/// takes the cursor just behind the `]` that ends its loop. Either way the
/// tape and the data pointer stay as they are and nothing is handed out.
pub proof fn lemma_open_bracket(s: MachineState)
    requires
        s.wf(),
        s.can_step(),
        s.opcode() == '[',
    ensures
        s.cell() != 0 ==> s.step().code_pointer == s.pc() + 1,
        s.cell() == 0 ==> closes_at(s.code, s.pc(), s.step().code_pointer - 1),
        s.step().memory == s.memory,
        s.step().mem_pointer == s.mem_pointer,
        s.action() is None,
{
    assert(s.step().memory =~= s.memory);
}

/// `]` takes the cursor just behind the `[` that begins its loop, whatever
/// the current cell holds. The tape and the data pointer stay as they are
/// and nothing is handed out.
pub proof fn lemma_close_bracket(s: MachineState)
    requires
        s.wf(),
        s.can_step(),
        s.opcode() == ']',
    ensures
        opens_at(s.code, s.pc(), s.step().code_pointer - 1),
        s.step().memory == s.memory,
        s.step().mem_pointer == s.mem_pointer,
        s.action() is None,
{
    assert(s.step().memory =~= s.memory);
}

/// A machine whose cursor has run off the end of its program steps
/// exactly as it would from the first opcode.
pub proof fn lemma_cursor_wraps(s: MachineState)
    requires
        s.wf(),
        s.code_pointer == s.code.len(),
    ensures
        s.step() == s.rewound().step(),
        s.action() == s.rewound().action(),
        s.can_step() == s.rewound().can_step(),
{
}

/// Steps never change the program.
pub proof fn lemma_run_keeps_code(s: MachineState, n: nat)
    ensures
        s.run(n).code == s.code,
    decreases n,
{
    if n > 0 {
        lemma_run_keeps_code(s, (n - 1) as nat);
    }
}

/// A pass that began on the first opcode, ended behind the last one and
/// left the tape and the data pointer as they were is repeated by the
/// next pass: from there on the machine hands out the same actions, step
/// by step, and goes through the same states.
pub proof fn lemma_pass_repeats(s: MachineState, n: nat, m: nat)
    requires
        s.wf(),
        s.code_pointer == 0,
        s.run(n).code_pointer == s.code.len(),
        s.run(n).memory == s.memory,
        s.run(n).mem_pointer == s.mem_pointer,
    ensures
        s.run(n).trace(m) == s.trace(m),
        m > 0 ==> s.run(n).run(m) == s.run(m),
    decreases m,
{
    let r = s.run(n);
    lemma_run_keeps_code(s, n);
    assert(r.rewound() == s);
    if m > 0 {
        lemma_pass_repeats(s, n, (m - 1) as nat);
        if m == 1 {
            assert(r.run(0) == r);
            assert(s.run(0) == s);
        }
        assert(r.run(m) == s.run(m));
    }
    assert forall|i: int| 0 <= i < m implies r.trace(m)[i] == s.trace(m)[i] by {
        if i > 0 {
            lemma_pass_repeats(s, n, i as nat);
        }
    }
    assert(r.trace(m) =~= s.trace(m));
}

/// `.` hands out a bet of exactly the current cell's value and `,` a
/// request for the balance; both leave the tape and the data pointer as
/// they are and move the cursor by one.
pub proof fn lemma_actions(s: MachineState)
    requires
        s.wf(),
    ensures
        s.opcode() == '.' ==> s.action() == Some(GambleAction::Bet(s.cell())),
        s.opcode() == ',' ==> s.action() == Some(GambleAction::RequestBalance),
        s.opcode() != '.' && s.opcode() != ',' ==> s.action() is None,
        s.opcode() == '.' || s.opcode() == ',' ==> s.step() == (MachineState {
            code_pointer: (s.pc() + 1) as nat,
            ..s
        }),
{
    if s.opcode() == '.' || s.opcode() == ',' {
        assert(s.step().memory =~= s.memory);
    }
}

/// A value written into the current cell is what a bet that follows at
/// once stakes; writing touches nothing but that cell.
pub proof fn lemma_written_value_is_bet(s: MachineState, value: usize)
    requires
        s.wf(),
    ensures
        s.write(value).wf(),
        s.write(value).cell() == value,
        s.write(value).opcode() == s.opcode(),
        s.opcode() == '.' ==> s.write(value).action() == Some(GambleAction::Bet(value)),
        s.write(value).code == s.code,
        s.write(value).mem_pointer == s.mem_pointer,
        s.write(value).code_pointer == s.code_pointer,
        forall|i: int|
            0 <= i < s.memory.len() && i != s.mem_pointer ==> s.write(value).memory[i]
                == s.memory[i],
{
}

/// The answer to a bet, written into the current cell, is what a bet that
/// follows at once stakes: 1 after a win, 0 after a loss.
pub proof fn lemma_answer_is_bet(s: MachineState, won: bool)
    requires
        s.wf(),
        s.opcode() == '.',
    ensures
        won ==> s.write(1).action() == Some(GambleAction::Bet(1)),
        !won ==> s.write(0).action() == Some(GambleAction::Bet(0)),
{
}

} // verus!
