//! The tape machine: a program of single-character opcodes run one step at
//! a time over 256 wrapping cells, handing an action to its host whenever a
//! step places a bet or asks for the balance.

use vstd::prelude::*;
use vstd::pervasive::unreached;
use crate::nesting::{
    balanced, closes_at, find_close, find_open, lemma_closes_at_unique, lemma_opens_at_unique,
    occurrences, opens_at,
};

verus! {

/// What a step asks of the host.
#[derive(Debug, Clone, Copy, PartialEq, Eq)]
pub enum GambleAction {
    /// Stake the value of the current cell.
    Bet(usize),
    /// Report the balance into the current cell.
    RequestBalance,
}

/// Why a program was turned down.
#[derive(Debug, Clone, Copy, PartialEq, Eq)]
pub enum ConstructionError {
    /// The program holds more of one bracket than of the other.
    UnbalancedBrackets,
}

/// The number of cells on the tape.
pub const TAPE_CELLS: usize = 256;

/// The mathematical state of a machine.
pub struct MachineState {
    /// The program, one opcode per character.
    pub code: Seq<char>,
    /// The tape.
    pub memory: Seq<usize>,
    /// The cell under the data pointer.
    pub mem_pointer: u8,
    /// The cursor into the program.
    pub code_pointer: nat,
}

impl MachineState {
    /// The state of a machine fresh from construction.
    pub open spec fn initial(code: Seq<char>) -> MachineState {
        MachineState {
            code,
            memory: Seq::new(TAPE_CELLS as nat, |i: int| 0usize),
            mem_pointer: 0,
            code_pointer: 0,
        }
    }

    /// What every machine keeps true: a balanced program, a full tape, and
    /// a cursor that is inside the program or just past its end.
    pub open spec fn wf(self) -> bool {
        &&& balanced(self.code)
        &&& self.memory.len() == TAPE_CELLS
        &&& self.code_pointer <= self.code.len()
    }

    /// The value of the cell under the data pointer.
    pub open spec fn cell(self) -> usize {
        self.memory[self.mem_pointer as int]
    }

    /// The position the next step reads: the cursor, or the start of the
    /// program once the cursor has run past the end.
    pub open spec fn pc(self) -> int {
        if self.code_pointer == self.code.len() {
            0
        } else {
            self.code_pointer as int
        }
    }

    /// The opcode the next step runs.
    pub open spec fn opcode(self) -> char {
        self.code[self.pc()]
    }

    /// Whether the next step skips a loop: it reads `[` over a zero cell.
    pub open spec fn skips(self) -> bool {
        self.opcode() == '[' && self.cell() == 0
    }

    /// Whether the next step can be taken: there is an opcode to read, and
    /// a bracket that has to jump finds its partner.
    pub open spec fn can_step(self) -> bool {
        &&& self.code.len() > 0
        &&& self.skips() ==> exists|j: int| closes_at(self.code, self.pc(), j)
        &&& self.opcode() == ']' ==> exists|i: int| opens_at(self.code, self.pc(), i)
    }

    /// Where the cursor rests once the next step has run its opcode: on the
    /// partner of a bracket that jumps, else on the opcode itself.
    pub open spec fn landing(self) -> int {
        if self.skips() {
            choose|j: int| closes_at(self.code, self.pc(), j)
        } else if self.opcode() == ']' {
            choose|i: int| opens_at(self.code, self.pc(), i)
        } else {
            self.pc()
        }
    }

    /// The same state with `value` in the cell under the data pointer.
    pub open spec fn write(self, value: usize) -> MachineState {
        MachineState { memory: self.memory.update(self.mem_pointer as int, value), ..self }
    }

    /// The data pointer after the next step.
    pub open spec fn next_mem_pointer(self) -> u8 {
        if self.opcode() == '>' {
            if self.mem_pointer == u8::MAX { 0u8 } else { (self.mem_pointer + 1) as u8 }
        } else if self.opcode() == '<' {
            if self.mem_pointer == 0 { u8::MAX } else { (self.mem_pointer - 1) as u8 }
        } else {
            self.mem_pointer
        }
    }

    /// The value of the current cell after the next step.
    pub open spec fn next_cell(self) -> usize {
        if self.opcode() == '+' {
            if self.cell() == usize::MAX { 0usize } else { (self.cell() + 1) as usize }
        } else if self.opcode() == '-' {
            if self.cell() == 0 { usize::MAX } else { (self.cell() - 1) as usize }
        } else {
            self.cell()
        }
    }

    /// The state after the next step.
    pub open spec fn step(self) -> MachineState {
        MachineState {
            code: self.code,
            memory: self.memory.update(self.mem_pointer as int, self.next_cell()),
            mem_pointer: self.next_mem_pointer(),
            code_pointer: (self.landing() + 1) as nat,
        }
    }

    /// What the next step hands to the host.
    pub open spec fn action(self) -> Option<GambleAction> {
        if self.opcode() == '.' {
            Some(GambleAction::Bet(self.cell()))
        } else if self.opcode() == ',' {
            Some(GambleAction::RequestBalance)
        } else {
            None
        }
    }
}

/// A tape machine.
#[derive(Debug)]
pub struct GambleF {
    /// The program; it holds as many `[` as `]`.
    code: Vec<char>,
    /// The tape.
    memory: [usize; 256],
    /// The cell the machine is looking at.
    mem_pointer: u8,
    /// The opcode the machine runs next; at most the length of the program.
    code_pointer: usize,
}

impl View for GambleF {
    type V = MachineState;

    closed spec fn view(&self) -> MachineState {
        MachineState {
            code: self.code@,
            memory: self.memory@,
            mem_pointer: self.mem_pointer,
            code_pointer: self.code_pointer as nat,
        }
    }
}

/// Counts how often `c` stands in `code`.
fn count_char(code: &Vec<char>, c: char) -> (n: usize)
    ensures
        n == occurrences(code@, c, 0, code@.len() as int),
{
    let mut n: usize = 0;
    let mut i: usize = 0;
    while i < code.len()
        invariant
            i <= code.len(),
            n <= i,
            n == occurrences(code@, c, 0, i as int),
        decreases code.len() - i,
    {
        if code[i] == c {
            n += 1;
        }
        i += 1;
    }
    n
}

impl GambleF {
    /// Builds a machine for `code`, with an all-zero tape, the data pointer
    /// on cell 0 and the cursor on the first opcode. A program whose
    /// brackets are not balanced is turned down.
    pub fn new(code: &str) -> (made: Result<GambleF, ConstructionError>)
        ensures
            made is Ok <==> balanced(code@),
            made matches Ok(machine) ==> machine@ == MachineState::initial(code@) && machine@.wf(),
            made matches Err(e) ==> e == ConstructionError::UnbalancedBrackets,
    {
        let mut chars: Vec<char> = Vec::new();
        for c in it: code.chars()
            invariant
                it.seq() == code@,
                chars@ == code@.take(it.index()),
        {
            chars.push(c);
        }
        assert(chars@ == code@);
        if count_char(&chars, '[') != count_char(&chars, ']') {
            return Err(ConstructionError::UnbalancedBrackets);
        }
        let machine = GambleF { code: chars, memory: [0; 256], mem_pointer: 0, code_pointer: 0 };
        assert(machine@.memory =~= MachineState::initial(code@).memory);
        Ok(machine)
    }

    /// `>`: moves the data pointer one cell right, from the last cell to the first.
    fn right(&mut self) -> (action: Option<GambleAction>)
        ensures
            action is None,
            final(self)@ == (MachineState {
                mem_pointer: if old(self)@.mem_pointer == u8::MAX {
                    0u8
                } else {
                    (old(self)@.mem_pointer + 1) as u8
                },
                ..old(self)@
            }),
    {
        if self.mem_pointer == u8::MAX {
            self.mem_pointer = 0;
        } else {
            self.mem_pointer += 1;
        }
        None
    }

    /// `<`: moves the data pointer one cell left, from the first cell to the last.
    fn left(&mut self) -> (action: Option<GambleAction>)
        ensures
            action is None,
            final(self)@ == (MachineState {
                mem_pointer: if old(self)@.mem_pointer == 0 {
                    u8::MAX
                } else {
                    (old(self)@.mem_pointer - 1) as u8
                },
                ..old(self)@
            }),
    {
        if self.mem_pointer == 0 {
            self.mem_pointer = 255;
        } else {
            self.mem_pointer -= 1;
        }
        None
    }

    /// `+`: adds one to the current cell, from the largest value to zero.
    fn inc(&mut self) -> (action: Option<GambleAction>)
        ensures
            action is None,
            final(self)@ == old(self)@.write(
                if old(self)@.cell() == usize::MAX {
                    0usize
                } else {
                    (old(self)@.cell() + 1) as usize
                },
            ),
    {
        let at: usize = self.mem_pointer as usize;
        if self.memory[at] == usize::MAX {
            self.memory[at] = 0;
        } else {
            self.memory[at] += 1;
        }
        None
    }

    /// `-`: takes one from the current cell, from zero to the largest value.
    fn dec(&mut self) -> (action: Option<GambleAction>)
        ensures
            action is None,
            final(self)@ == old(self)@.write(
                if old(self)@.cell() == 0 {
                    usize::MAX
                } else {
                    (old(self)@.cell() - 1) as usize
                },
            ),
    {
        let at: usize = self.mem_pointer as usize;
        if self.memory[at] == 0 {
            self.memory[at] = usize::MAX;
        } else {
            self.memory[at] -= 1;
        }
        None
    }

    /// `.`: a bet of the current cell's value.
    fn gamble(&self) -> (action: GambleAction)
        ensures
            action == GambleAction::Bet(self@.cell()),
    {
        GambleAction::Bet(self.memory[self.mem_pointer as usize])
    }

    /// `,`: a request for the balance.
    fn request_balance() -> (action: GambleAction)
        ensures
            action == GambleAction::RequestBalance,
    {
        GambleAction::RequestBalance
    }

    /// `[`: over a zero cell, moves the cursor onto the `]` that ends the
    /// loop; over any other value, leaves everything as it is.
    fn branch(&mut self) -> (action: Option<GambleAction>)
        requires
            old(self)@.code_pointer < old(self)@.code.len(),
            old(self)@.opcode() == '[',
            old(self)@.cell() == 0 ==> exists|j: int|
                closes_at(old(self)@.code, old(self)@.code_pointer as int, j),
        ensures
            action is None,
            final(self)@ == (MachineState {
                code_pointer: final(self)@.code_pointer,
                ..old(self)@
            }),
            old(self)@.cell() != 0 ==> final(self)@.code_pointer == old(self)@.code_pointer,
            old(self)@.cell() == 0 ==> closes_at(
                old(self)@.code,
                old(self)@.code_pointer as int,
                final(self)@.code_pointer as int,
            ),
    {
        if self.memory[self.mem_pointer as usize] != 0 {
            return None;
        }
        match find_close(&self.code, self.code_pointer) {
            Some(close) => {
                self.code_pointer = close;
            },
            None => {
                unreached::<()>();
            },
        }
        None
    }

    /// `]`: moves the cursor back onto the `[` that begins the loop,
    /// whatever the current cell holds.
    fn loop_back(&mut self) -> (action: Option<GambleAction>)
        requires
            old(self)@.code_pointer < old(self)@.code.len(),
            old(self)@.opcode() == ']',
            exists|i: int| opens_at(old(self)@.code, old(self)@.code_pointer as int, i),
        ensures
            action is None,
            final(self)@ == (MachineState {
                code_pointer: final(self)@.code_pointer,
                ..old(self)@
            }),
            opens_at(
                old(self)@.code,
                old(self)@.code_pointer as int,
                final(self)@.code_pointer as int,
            ),
    {
        match find_open(&self.code, self.code_pointer) {
            Some(open) => {
                self.code_pointer = open;
            },
            None => {
                unreached::<()>();
            },
        }
        None
    }

    /// The opcode under the cursor, if the cursor is inside the program.
    fn char_at_code_pointer(&self) -> (found: Option<&char>)
        ensures
            self@.code_pointer < self@.code.len() ==> found == Some(
                &self@.code[self@.code_pointer as int],
            ),
            self@.code_pointer >= self@.code.len() ==> found is None,
    {
        if self.code_pointer < self.code.len() {
            Some(&self.code[self.code_pointer])
        } else {
            None
        }
    }

    /// Whether the next step can be taken. Where it cannot, the program is
    /// empty or the bracket under the cursor has no partner to jump to.
    pub fn can_tick(&self) -> (able: bool)
        requires
            self@.wf(),
        ensures
            able == self@.can_step(),
    {
        if self.code.len() == 0 {
            return false;
        }
        let pc: usize = if self.code_pointer == self.code.len() {
            0
        } else {
            self.code_pointer
        };
        let c: char = self.code[pc];
        if c == '[' && self.memory[self.mem_pointer as usize] == 0 {
            find_close(&self.code, pc).is_some()
        } else if c == ']' {
            find_open(&self.code, pc).is_some()
        } else {
            true
        }
    }

    /// What the next step will hand to the host, without taking the step.
    pub fn next_action(&self) -> (action: Option<GambleAction>)
        requires
            self@.wf(),
            self@.code.len() > 0,
        ensures
            action == self@.action(),
    {
        let pc: usize = if self.code_pointer == self.code.len() {
            0
        } else {
            self.code_pointer
        };
        let c: char = self.code[pc];
        if c == '.' {
            Some(self.gamble())
        } else if c == ',' {
            Some(GambleF::request_balance())
        } else {
            None
        }
    }

    /// Runs one opcode and moves the cursor past it; a cursor that has run
    /// off the end of the program starts over at the first opcode.
    ///
    /// `>` and `<` move the data pointer, `+` and `-` change the current
    /// cell, each wrapping at its ends. `[` over a zero cell jumps to the
    /// `]` that ends its loop, `]` jumps back to the `[` that begins it, and
    /// the run goes on behind the bracket jumped to. `.` hands out a bet of
    /// the current cell's value and `,` a request for the balance; any other
    /// character does nothing.
    pub fn tick(&mut self) -> (action: Option<GambleAction>)
        requires
            old(self)@.wf(),
            old(self)@.can_step(),
        ensures
            final(self)@ == old(self)@.step(),
            action == old(self)@.action(),
            final(self)@.wf(),
    {
        if self.code_pointer == self.code.len() {
            self.code_pointer = 0;
        }
        let result = match self.char_at_code_pointer() {
            Some('<') => self.left(),
            Some('+') => self.inc(),
            Some('-') => self.dec(),
            Some('[') => self.branch(),
            Some(']') => self.loop_back(),
            Some('.') => Some(self.gamble()),
            Some(',') => Some(GambleF::request_balance()),
            Some('>') => self.right(),
            Some(_) => None,
            None => unreached(),
        };
        proof {
            let start = old(self)@;
            if start.skips() {
                lemma_closes_at_unique(
                    start.code,
                    start.pc(),
                    start.landing(),
                    self@.code_pointer as int,
                );
            } else if start.opcode() == ']' {
                lemma_opens_at_unique(
                    start.code,
                    start.pc(),
                    start.landing(),
                    self@.code_pointer as int,
                );
            }
            assert(self@.memory =~= start.step().memory);
        }
        self.code_pointer += 1;
        result
    }

    /// Answers a bet: writes 1 into the current cell if it was won, 0 if lost.
    pub fn gamble_result(&mut self, result: bool)
        ensures
            final(self)@ == old(self)@.write(if result { 1usize } else { 0usize }),
    {
        self.memory[self.mem_pointer as usize] = if result { 1 } else { 0 };
    }

    /// Answers a request for the balance: writes it into the current cell.
    pub fn balance(&mut self, balance: usize)
        ensures
            final(self)@ == old(self)@.write(balance),
    {
        self.memory[self.mem_pointer as usize] = balance;
    }

    /// The program as text.
    pub fn code_string(&self) -> (text: String)
        ensures
            text@ == self@.code,
    {
        let mut text = String::new();
        let mut i: usize = 0;
        while i < self.code.len()
            invariant
                i <= self.code.len(),
                text@ == self.code@.take(i as int),
            decreases self.code.len() - i,
        {
            text.push(self.code[i]);
            i += 1;
        }
        text
    }

    /// The cursor: the position of the opcode that the next step runs, or
    /// the length of the program once the last opcode has run.
    pub fn get_code_pointer(&self) -> (at: usize)
        ensures
            at == self@.code_pointer,
    {
        self.code_pointer
    }
}

/// `String::push` appends the character to the end of the string and
/// changes nothing else in it.
pub assume_specification[ String::push ](text: &mut String, c: char)
    ensures
        final(text)@ == old(text)@.push(c),
;

} // verus!
