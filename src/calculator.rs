//! A four-function calculator driven one key at a time, with a pending
//! operation, chained evaluation and a history of the last ten results.

use vstd::prelude::*;
use crate::decimal::{
    decimal_add, decimal_difference, decimal_div, decimal_from_text, decimal_mul, decimal_parse,
    decimal_product, decimal_quotient, decimal_sub, decimal_sum, decimal_text, decimal_to_string,
    pop_char, push_char, DecimalValue,
};

verus! {

/// Most entries that the history keeps.
pub const HISTORY_LEN: usize = 10;

#[derive(Clone, Copy, Debug, PartialEq, Eq, Structural)]
pub enum Operator {
    Add,
    Subtract,
    Multiply,
    Divide,
}

pub open spec fn op_text(op: Operator) -> Seq<char> {
    match op {
        Operator::Add => "+"@,
        Operator::Subtract => "-"@,
        Operator::Multiply => "*"@,
        Operator::Divide => "/"@,
    }
}

/// One evaluation: `left op right = result`.
#[derive(Clone, Copy, Debug, PartialEq, Eq, Structural)]
pub struct HistoryEntry {
    pub left: DecimalValue,
    pub op: Operator,
    pub right: DecimalValue,
    pub result: DecimalValue,
}

impl HistoryEntry {
    pub open spec fn wf(self) -> bool {
        self.left.wf() && self.right.wf() && self.result.wf()
    }

    pub open spec fn text_spec(self) -> Seq<char> {
        decimal_text(self.left.parts()) + " "@ + op_text(self.op) + " "@ + decimal_text(
            self.right.parts(),
        ) + " = "@ + decimal_text(self.result.parts())
    }

    /// The entry as `a op b = r`.
    pub fn text(&self) -> (r: String)
        requires
            self.wf(),
        ensures
            r@ == self.text_spec(),
    {
        let op = match self.op {
            Operator::Add => "+",
            Operator::Subtract => "-",
            Operator::Multiply => "*",
            Operator::Divide => "/",
        };
        let mut s = decimal_to_string(self.left);
        s.append(" ");
        s.append(op);
        s.append(" ");
        let right = decimal_to_string(self.right);
        s.append(right.as_str());
        s.append(" = ");
        let result = decimal_to_string(self.result);
        s.append(result.as_str());
        s
    }
}

/// The value of a display: the decimal it reads as, or zero.
pub open spec fn operand_spec(display: Seq<char>) -> (int, int) {
    match decimal_from_text(display) {
        Some(p) => p,
        None => (0, 0),
    }
}

/// `a op b`; zero where `b` is zero in a division, or where the result
/// leaves the range of a decimal.
pub open spec fn apply_spec(op: Operator, a: (int, int), b: (int, int)) -> (int, int) {
    let r = match op {
        Operator::Add => decimal_sum(a, b),
        Operator::Subtract => decimal_difference(a, b),
        Operator::Multiply => decimal_product(a, b),
        Operator::Divide => if b.0 == 0 {
            None
        } else {
            decimal_quotient(a, b)
        },
    };
    match r {
        Some(p) => p,
        None => (0, 0),
    }
}

fn read_operand(display: &String) -> (r: DecimalValue)
    ensures
        r.wf(),
        r.parts() == operand_spec(display@),
{
    match decimal_parse(display.as_str()) {
        Ok(v) => v,
        Err(_) => DecimalValue::zero(),
    }
}

fn apply(op: Operator, a: DecimalValue, b: DecimalValue) -> (r: DecimalValue)
    requires
        a.wf(),
        b.wf(),
    ensures
        r.wf(),
        r.parts() == apply_spec(op, a.parts(), b.parts()),
{
    let r = match op {
        Operator::Add => decimal_add(a, b),
        Operator::Subtract => decimal_sub(a, b),
        Operator::Multiply => decimal_mul(a, b),
        Operator::Divide => if b.is_zero() {
            None
        } else {
            decimal_div(a, b)
        },
    };
    match r {
        Some(v) => v,
        None => DecimalValue::zero(),
    }
}

/// Whether a text holds a decimal point.
fn has_point(s: &String) -> (r: bool)
    ensures
        r == s@.contains('.'),
{
    let n = s.as_str().unicode_len();
    let mut i: usize = 0;
    while i < n
        invariant
            n == s@.len(),
            i <= n,
            forall|j: int| 0 <= j < i ==> s@[j] != '.',
        decreases n - i,
    {
        if s.as_str().get_char(i) == '.' {
            return true;
        }
        i = i + 1;
    }
    false
}

/// The display after a digit or point is typed on `base`: a second point
/// is ignored, and a lone `0` is replaced by a digit.
pub open spec fn typed_spec(base: Seq<char>, d: char) -> Seq<char> {
    if d == '.' && base.contains('.') {
        base
    } else if base == seq!['0'] && d != '.' {
        seq![d]
    } else {
        base.push(d)
    }
}

/// The history after `e` is recorded: newest first, the oldest dropped past
/// ten entries.
pub open spec fn recorded_spec(h: Seq<HistoryEntry>, e: HistoryEntry) -> Seq<HistoryEntry> {
    let n = seq![e] + h;
    if n.len() > HISTORY_LEN {
        n.drop_last()
    } else {
        n
    }
}

/// Recording an evaluation keeps at most ten entries, puts the new one
/// first, and past ten drops only the oldest.
pub proof fn lemma_history_keeps_last_ten(h: Seq<HistoryEntry>, e: HistoryEntry)
    requires
        h.len() <= HISTORY_LEN,
    ensures
        recorded_spec(h, e).len() <= HISTORY_LEN,
        recorded_spec(h, e)[0] == e,
        h.len() < HISTORY_LEN ==> recorded_spec(h, e) == seq![e] + h,
        h.len() == HISTORY_LEN ==> recorded_spec(h, e) == seq![e] + h.take(HISTORY_LEN - 1),
{
    if h.len() == HISTORY_LEN {
        assert((seq![e] + h).drop_last() =~= seq![e] + h.take(HISTORY_LEN - 1));
    }
}

/// A decimal with the given parts.
pub open spec fn value_of(p: (int, int)) -> DecimalValue {
    DecimalValue { mantissa: p.0 as i128, scale: p.1 as u32 }
}

/// The calculator's state.
#[derive(Clone, Debug)]
pub struct Calculator {
    /// What is shown, and what the next operand is read from.
    pub display: String,
    /// The value that the memory key recalls.
    pub memory: DecimalValue,
    /// The operation waiting for its right operand.
    pub pending: Option<Operator>,
    /// The left operand of the pending operation.
    pub left: DecimalValue,
    /// Whether the next digit starts a new number.
    pub clear_on_entry: bool,
    /// Past evaluations, newest first.
    pub history: Vec<HistoryEntry>,
}

impl Calculator {
    pub open spec fn wf(&self) -> bool {
        &&& self.memory.wf()
        &&& self.left.wf()
        &&& self.history@.len() <= HISTORY_LEN
        &&& forall|i: int| 0 <= i < self.history@.len() ==> #[trigger] self.history@[i].wf()
    }

    /// What evaluating the pending operation `op` records.
    pub open spec fn entry_spec(self, op: Operator) -> HistoryEntry {
        let right = operand_spec(self.display@);
        HistoryEntry {
            left: self.left,
            op,
            right: value_of(right),
            result: value_of(apply_spec(op, self.left.parts(), right)),
        }
    }

    /// `post` is `self` after the pending operation, if any, is evaluated.
    pub open spec fn evaluated(self, post: Calculator) -> bool {
        &&& post.memory == self.memory
        &&& post.clear_on_entry == self.clear_on_entry
        &&& post.pending is None
        &&& match self.pending {
            None => post.display@ == self.display@ && post.left == self.left && post.history@
                == self.history@,
            Some(op) => {
                let e = self.entry_spec(op);
                &&& post.left == e.result
                &&& post.display@ == decimal_text(e.result.parts())
                &&& post.history@ == recorded_spec(self.history@, e)
            },
        }
    }

    /// `post` is `self` after the operator `op` is chosen.
    pub open spec fn operator_chosen(self, post: Calculator, op: Operator) -> bool {
        &&& post.pending == Some(op)
        &&& post.clear_on_entry
        &&& post.memory == self.memory
        &&& post.left.parts() == operand_spec(post.display@)
        &&& match self.pending {
            None => post.display@ == self.display@ && post.history@ == self.history@,
            Some(p) => {
                let e = self.entry_spec(p);
                &&& post.display@ == decimal_text(e.result.parts())
                &&& post.history@ == recorded_spec(self.history@, e)
            },
        }
    }

    /// `post` is `self` after the digit or point `d` is typed.
    pub open spec fn digit_typed(self, post: Calculator, d: char) -> bool {
        &&& post.display@ == typed_spec(
            if self.clear_on_entry { Seq::empty() } else { self.display@ },
            d,
        )
        &&& !post.clear_on_entry
        &&& post.pending == self.pending
        &&& post.left == self.left
        &&& post.memory == self.memory
        &&& post.history@ == self.history@
    }

    /// `post` is `self` with another display and all else kept.
    pub open spec fn shows(self, post: Calculator, display: Seq<char>) -> bool {
        &&& post.display@ == display
        &&& post.pending == self.pending
        &&& post.left == self.left
        &&& post.clear_on_entry == self.clear_on_entry
        &&& post.memory == self.memory
        &&& post.history@ == self.history@
    }

    /// `post` is `self` cleared: display `0`, nothing pending, history kept.
    pub open spec fn cleared(self, post: Calculator) -> bool {
        &&& post.display@ == seq!['0']
        &&& post.pending is None
        &&& post.left.parts() == (0int, 0int)
        &&& !post.clear_on_entry
        &&& post.memory == self.memory
        &&& post.history@ == self.history@
    }

    /// The display after backspace: one character fewer, or `0`.
    pub open spec fn backspaced(self) -> Seq<char> {
        if self.display@.len() > 1 {
            self.display@.drop_last()
        } else {
            seq!['0']
        }
    }

    /// Display `0`, nothing pending, empty history.
    pub fn new() -> (r: Calculator)
        ensures
            r.wf(),
            r.display@ == seq!['0'],
            r.memory.parts() == (0int, 0int),
            r.pending is None,
            r.left.parts() == (0int, 0int),
            !r.clear_on_entry,
            r.history@.len() == 0,
    {
        proof {
            reveal_strlit("0");
        }
        Calculator {
            display: String::from_str("0"),
            memory: DecimalValue::zero(),
            pending: None,
            left: DecimalValue::zero(),
            clear_on_entry: false,
            history: Vec::new(),
        }
    }

    /// Types a digit or a decimal point.
    pub fn type_digit(&mut self, d: char)
        requires
            old(self).wf(),
        ensures
            final(self).wf(),
            old(self).digit_typed(*final(self), d),
    {
        if self.clear_on_entry {
            self.display = String::new();
            self.clear_on_entry = false;
        }
        if d == '.' && has_point(&self.display) {
            return;
        }
        let lone_zero = self.display.as_str().unicode_len() == 1 && self.display.as_str().get_char(0) == '0';
        proof {
            assert(lone_zero <==> self.display@ =~= seq!['0']);
        }
        if d != '.' && lone_zero {
            self.display = String::new();
        }
        push_char(&mut self.display, d);
    }

    /// Evaluates the pending operation, if any, against the displayed value;
    /// the result is shown, becomes the left operand and is recorded.
    pub fn evaluate(&mut self)
        requires
            old(self).wf(),
        ensures
            final(self).wf(),
            old(self).evaluated(*final(self)),
    {
        match self.pending {
            None => {},
            Some(op) => {
                let right = read_operand(&self.display);
                let result = apply(op, self.left, right);
                self.display = decimal_to_string(result);
                let e = HistoryEntry { left: self.left, op, right, result };
                self.history.insert(0, e);
                if self.history.len() > HISTORY_LEN {
                    self.history.pop();
                }
                proof {
                    assert(e == old(self).entry_spec(op));
                    assert(self.history@ =~= recorded_spec(old(self).history@, e));
                    assert forall|i: int| 0 <= i < self.history@.len() implies #[trigger] self.history@[i].wf() by {
                        if i > 0 {
                            assert(self.history@[i] == old(self).history@[i - 1]);
                        }
                    }
                }
                self.pending = None;
                self.left = result;
            },
        }
    }

    /// Chooses an operation: any pending one is evaluated first, then the
    /// displayed value becomes the left operand and the next digit starts
    /// a new number.
    pub fn set_operator(&mut self, op: Operator)
        requires
            old(self).wf(),
        ensures
            final(self).wf(),
            old(self).operator_chosen(*final(self), op),
    {
        self.evaluate();
        self.left = read_operand(&self.display);
        self.pending = Some(op);
        self.clear_on_entry = true;
    }

    /// Shows `0` and forgets the pending operation and its left operand; the
    /// history stays.
    pub fn clear(&mut self)
        requires
            old(self).wf(),
        ensures
            final(self).wf(),
            old(self).cleared(*final(self)),
    {
        proof {
            reveal_strlit("0");
        }
        self.display = String::from_str("0");
        proof {
            assert(self.display@ =~= seq!['0']);
        }
        self.pending = None;
        self.left = DecimalValue::zero();
        self.clear_on_entry = false;
    }

    /// Shows the value held in memory.
    pub fn recall_memory(&mut self)
        requires
            old(self).wf(),
        ensures
            final(self).wf(),
            old(self).shows(*final(self), decimal_text(old(self).memory.parts())),
    {
        self.display = decimal_to_string(self.memory);
    }

    /// Removes the last character shown; a display of one character becomes
    /// `0`.
    pub fn backspace(&mut self)
        requires
            old(self).wf(),
        ensures
            final(self).wf(),
            old(self).shows(*final(self), old(self).backspaced()),
    {
        if self.display.as_str().unicode_len() > 1 {
            pop_char(&mut self.display);
        } else {
            proof {
                reveal_strlit("0");
            }
            self.display = String::from_str("0");
            proof {
                assert(self.display@ =~= seq!['0']);
            }
        }
    }

    /// Replaces the display with edited text.
    pub fn set_display(&mut self, text: &String)
        requires
            old(self).wf(),
        ensures
            final(self).wf(),
            old(self).shows(*final(self), text@),
    {
        self.display = text.clone();
    }

    /// Handles one key: digits and `.`, the operators `+ - * /`, `=` or a
    /// newline to evaluate, `c` to clear, `m` to recall memory, and
    /// backspace. Other keys do nothing.
    pub fn press(&mut self, key: char)
        requires
            old(self).wf(),
        ensures
            final(self).wf(),
            (('0' <= key <= '9') || key == '.') ==> old(self).digit_typed(*final(self), key),
            key == '+' ==> old(self).operator_chosen(*final(self), Operator::Add),
            key == '-' ==> old(self).operator_chosen(*final(self), Operator::Subtract),
            key == '*' ==> old(self).operator_chosen(*final(self), Operator::Multiply),
            key == '/' ==> old(self).operator_chosen(*final(self), Operator::Divide),
            (key == '=' || key == '\n') ==> old(self).evaluated(*final(self)),
            (key == 'c' || key == 'C') ==> old(self).cleared(*final(self)),
            (key == 'm' || key == 'M') ==> old(self).shows(
                *final(self),
                decimal_text(old(self).memory.parts()),
            ),
            key == '\u{8}' ==> old(self).shows(*final(self), old(self).backspaced()),
            !(('0' <= key <= '9') || key == '.' || key == '+' || key == '-' || key == '*' || key
                == '/' || key == '=' || key == '\n' || key == 'c' || key == 'C' || key == 'm'
                || key == 'M' || key == '\u{8}') ==> old(self).shows(*final(self), old(self).display@),
    {
        if ('0' <= key && key <= '9') || key == '.' {
            self.type_digit(key);
        } else if key == '+' {
            self.set_operator(Operator::Add);
        } else if key == '-' {
            self.set_operator(Operator::Subtract);
        } else if key == '*' {
            self.set_operator(Operator::Multiply);
        } else if key == '/' {
            self.set_operator(Operator::Divide);
        } else if key == '=' || key == '\n' {
            self.evaluate();
        } else if key == 'c' || key == 'C' {
            self.clear();
        } else if key == 'm' || key == 'M' {
            self.recall_memory();
        } else if key == '\u{8}' {
            self.backspace();
        }
    }

    /// The history as text, newest first.
    pub fn history_text(&self) -> (r: Vec<String>)
        requires
            self.wf(),
        ensures
            r@.len() == self.history@.len(),
            forall|i: int| 0 <= i < r@.len() ==> #[trigger] r@[i]@ == self.history@[i].text_spec(),
    {
        let mut out: Vec<String> = Vec::new();
        let mut i: usize = 0;
        while i < self.history.len()
            invariant
                self.wf(),
                i <= self.history@.len(),
                out@.len() == i,
                forall|j: int| 0 <= j < i ==> #[trigger] out@[j]@ == self.history@[j].text_spec(),
            decreases self.history@.len() - i,
        {
            let t = self.history[i].text();
            out.push(t);
            i = i + 1;
        }
        out
    }
}

} // verus!
