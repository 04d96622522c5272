//! The stack-based command interpreter: a tokenizer, a word dictionary, a
//! pending-instruction queue, and an execution loop that drains the queue
//! depth-first, exactly as a re-entrant run loop would.

use vstd::prelude::*;
use vstd::string::*;

use crate::display::GraphicsHandle;
use crate::files::FileSystem;
use crate::input::Keyboard;
use crate::stack::{Stack, StackValue, ValueModel};
use crate::strutil::{lemma_assoc_absent, lemma_assoc_found, spec_assoc, str_eq};

verus! {

/// Characters the tokenizer treats as blank space.
pub open spec fn is_blank(c: char) -> bool {
    c == ' ' || c == '\n' || c == '\t' || c == '\r'
}

fn blank(c: char) -> (r: bool)
    ensures
        r == is_blank(c),
{
    c == ' ' || c == '\n' || c == '\t' || c == '\r'
}

/// The tokens of a text: maximal runs of non-blank characters, in order.
pub open spec fn spec_tokens(s: Seq<char>) -> Seq<Seq<char>>
    decreases s.len(),
{
    if s.len() == 0 {
        Seq::<Seq<char>>::empty()
    } else if is_blank(s[0]) {
        spec_tokens(s.drop_first())
    } else if s.len() == 1 || is_blank(s[1]) {
        seq![seq![s[0]]] + spec_tokens(s.drop_first())
    } else {
        let rest = spec_tokens(s.drop_first());
        seq![seq![s[0]] + rest[0]] + rest.drop_first()
    }
}

proof fn lemma_tokens_head(s: Seq<char>)
    requires
        s.len() > 0,
        !is_blank(s[0]),
    ensures
        spec_tokens(s).len() >= 1,
{
}

/// Splits a text into its blank-separated tokens.
pub fn tokenize(s: &str) -> (r: Vec<String>)
    ensures
        r.deep_view() == spec_tokens(s@),
    decreases s@.len(),
{
    let n = s.unicode_len();
    if n == 0 {
        let r: Vec<String> = Vec::new();
        proof {
            assert(r.deep_view() =~= spec_tokens(s@));
        }
        r
    } else {
        let c = s.get_char(0);
        let rest = s.substring_char(1, n);
        proof {
            assert(rest@ =~= s@.drop_first());
        }
        if blank(c) {
            tokenize(rest)
        } else if n == 1 || blank(s.get_char(1)) {
            let mut r = tokenize(rest);
            let mut t = String::new();
            crate::strutil::push_char(&mut t, c);
            r.insert(0, t);
            proof {
                assert(t@ =~= seq![s@[0]]);
                assert(r.deep_view() =~= spec_tokens(s@));
            }
            r
        } else {
            let mut r = tokenize(rest);
            proof {
                lemma_tokens_head(rest@);
            }
            let head = r.remove(0);
            let mut t = String::new();
            crate::strutil::push_char(&mut t, c);
            t.append(head.as_str());
            r.insert(0, t);
            proof {
                assert(t@ =~= seq![s@[0]] + spec_tokens(s@.drop_first())[0]);
                assert(r.deep_view() =~= spec_tokens(s@));
            }
            r
        }
    }
}

/// Powers of ten, for bounding numeric literals.
pub open spec fn pow10(n: nat) -> int
    decreases n,
{
    if n == 0 {
        1
    } else {
        10 * pow10((n - 1) as nat)
    }
}

proof fn lemma_pow10_pos(n: nat)
    ensures
        pow10(n) >= 1,
    decreases n,
{
    if n > 0 {
        lemma_pow10_pos((n - 1) as nat);
    }
}

proof fn lemma_pow10_mono(a: nat, b: nat)
    requires
        a <= b,
    ensures
        pow10(a) <= pow10(b),
    decreases b,
{
    if a < b {
        lemma_pow10_mono(a, (b - 1) as nat);
        lemma_pow10_pos((b - 1) as nat);
    }
}

/// Whether the character is a decimal digit.
pub open spec fn is_digit_char(c: char) -> bool {
    48 <= c as u32 <= 57
}

/// The value of one decimal digit.
pub open spec fn digit_val(c: char) -> int {
    c as u32 - 48
}

pub open spec fn all_digits(t: Seq<char>) -> bool {
    forall|i: int| 0 <= i < t.len() ==> is_digit_char(t[i])
}

/// The value a digit string denotes.
pub open spec fn digits_val(t: Seq<char>) -> int
    decreases t.len(),
{
    if t.len() == 0 {
        0
    } else {
        digits_val(t.drop_last()) * 10 + digit_val(t.last())
    }
}

proof fn lemma_digits_val_bound(t: Seq<char>)
    requires
        all_digits(t),
    ensures
        0 <= digits_val(t) < pow10(t.len()),
    decreases t.len(),
{
    if t.len() > 0 {
        assert(all_digits(t.drop_last()));
        lemma_digits_val_bound(t.drop_last());
    }
}

/// Whether a token is a numeric literal: an optional minus sign and one to
/// eighteen decimal digits.
pub open spec fn is_numeric_token(t: Seq<char>) -> bool {
    if t.len() > 0 && t[0] == '-' {
        1 <= t.len() - 1 <= 18 && all_digits(t.drop_first())
    } else {
        1 <= t.len() <= 18 && all_digits(t)
    }
}

/// The number a numeric literal denotes.
pub open spec fn numeric_value(t: Seq<char>) -> int {
    if t.len() > 0 && t[0] == '-' {
        -digits_val(t.drop_first())
    } else {
        digits_val(t)
    }
}

/// Whether a token is a quoted text literal.
pub open spec fn is_quoted(t: Seq<char>) -> bool {
    t.len() >= 2 && t[0] == '"' && t.last() == '"'
}

/// The stack value an unrecognized token becomes: quoted text loses its
/// quotes, numeric literals become numbers, anything else is kept as text.
pub open spec fn token_literal(t: Seq<char>) -> ValueModel {
    if is_quoted(t) {
        ValueModel::Text(t.subrange(1, t.len() - 1))
    } else if is_numeric_token(t) {
        ValueModel::Number(numeric_value(t) as i64)
    } else {
        ValueModel::Text(t)
    }
}

/// Parses a numeric literal.
fn parse_number(t: &str) -> (r: Option<i64>)
    ensures
        r is Some <==> is_numeric_token(t@),
        r is Some ==> r->0 == numeric_value(t@),
{
    let n = t.unicode_len();
    if n == 0 {
        return None;
    }
    let neg = t.get_char(0) == '-';
    let start: usize = if neg { 1 } else { 0 };
    let ghost body = if neg {
        t@.drop_first()
    } else {
        t@
    };
    proof {
        assert(body.len() == n - start);
        assert(forall|k: int| 0 <= k < body.len() ==> body[k] == t@[k + start]);
    }
    if n - start < 1 || n - start > 18 {
        return None;
    }
    let mut value: i64 = 0;
    let mut i: usize = start;
    proof {
        assert(body.take(0) =~= Seq::<char>::empty());
    }
    while i < n
        invariant
            start <= i <= n,
            n == t@.len(),
            n > 0,
            neg == (t@[0] == '-'),
            start == if neg { 1int } else { 0int },
            1 <= n - start <= 18,
            body == if neg { t@.drop_first() } else { t@ },
            body.len() == n - start,
            forall|k: int| 0 <= k < body.len() ==> body[k] == t@[k + start],
            all_digits(body.take(i - start)),
            value == digits_val(body.take(i - start)),
            0 <= value < pow10((i - start) as nat),
        decreases n - i,
    {
        let c = t.get_char(i);
        let u = c as u32;
        if u < 48 || u > 57 {
            proof {
                assert(body[i - start] == t@[i as int]);
                assert(!is_digit_char(body[i - start]));
                assert(!all_digits(body));
                assert(!is_numeric_token(t@));
            }
            return None;
        }
        proof {
            lemma_pow10_mono((i - start + 1) as nat, 18);
            lemma_pow10_mono(18, 18);
            assert(pow10(18) == 1000000000000000000) by {
                reveal_with_fuel(pow10, 19);
            }
            assert(pow10((i - start + 1) as nat) == 10 * pow10((i - start) as nat));
            assert(value * 10 + (u - 48) < pow10((i - start + 1) as nat));
        }
        value = value * 10 + (u - 48) as i64;
        proof {
            let k = i - start;
            assert(body.take(k + 1).drop_last() =~= body.take(k));
            assert(body.take(k + 1).last() == body[k]);
            assert(body[k] == t@[i as int]);
            assert(all_digits(body.take(k + 1)));
        }
        i += 1;
    }
    proof {
        assert(body.take((n - start) as int) =~= body);
        assert(is_numeric_token(t@));
    }
    if neg {
        Some(-value)
    } else {
        Some(value)
    }
}

/// Turns an unrecognized token into the literal it pushes.
fn literal_value(t: &str) -> (r: StackValue)
    ensures
        r@ == token_literal(t@),
{
    let n = t.unicode_len();
    if n >= 2 && t.get_char(0) == '"' && t.get_char(n - 1) == '"' {
        proof {
            assert(t@.last() == t@[n - 1]);
        }
        StackValue::Text(String::from_str(t.substring_char(1, n - 1)))
    } else {
        proof {
            assert(!is_quoted(t@));
        }
        match parse_number(t) {
            Some(v) => StackValue::Number(v),
            None => StackValue::Text(String::from_str(t)),
        }
    }
}

/// The native behaviors the dictionary can hold.
#[derive(Clone, Copy, Debug, PartialEq, Eq, Structural)]
pub enum NativeWord {
    /// Duplicates the top stack entry.
    Dup,
    /// Removes the top stack entry.
    Drop,
    /// Exchanges the two top stack entries.
    Swap,
    /// Resolves a path popped from the stack and runs the application
    /// installed there.
    Run,
}

/// The tokens of a queue holding exactly one fragment.
pub open spec fn sole_fragment_tokens(q: Seq<Seq<char>>) -> Seq<Seq<char>> {
    if q.len() == 1 {
        spec_tokens(q[0])
    } else {
        Seq::<Seq<char>>::empty()
    }
}

/// One dictionary entry: a native behavior or a stored instruction
/// sequence.
pub enum Word {
    Native(NativeWord),
    Script(String),
}

/// The mathematical shape of a dictionary entry.
pub enum WordModel {
    Native(NativeWord),
    Script(Seq<char>),
}

impl View for Word {
    type V = WordModel;

    open spec fn view(&self) -> WordModel {
        match self {
            Word::Native(n) => WordModel::Native(*n),
            Word::Script(s) => WordModel::Script(s@),
        }
    }
}

impl Clone for Word {
    fn clone(&self) -> (r: Self)
        ensures
            r@ == self@,
    {
        match self {
            Word::Native(n) => Word::Native(*n),
            Word::Script(s) => Word::Script(s.clone()),
        }
    }
}

/// What duplicating the top of the stack does.
pub open spec fn dup_effect(s: Seq<ValueModel>) -> Seq<ValueModel> {
    if s.len() > 0 {
        s.push(s.last())
    } else {
        s
    }
}

/// What removing the top of the stack does.
pub open spec fn drop_effect(s: Seq<ValueModel>) -> Seq<ValueModel> {
    if s.len() > 0 {
        s.drop_last()
    } else {
        s
    }
}

/// What exchanging the two top entries does.
pub open spec fn swap_effect(s: Seq<ValueModel>) -> Seq<ValueModel> {
    if s.len() >= 2 {
        s.drop_last().drop_last().push(s.last()).push(s[s.len() - 2])
    } else {
        s
    }
}

/// Whether a token's whole behavior is a stack effect the contracts state
/// directly: an unrecognized literal, or one of the three stack words.
pub open spec fn simple_token(d: Map<Seq<char>, WordModel>, t: Seq<char>) -> bool {
    if d.contains_key(t) {
        d[t] matches WordModel::Native(n) && (n is Dup || n is Drop || n is Swap)
    } else {
        true
    }
}

/// What one simple token does to the stack.
pub open spec fn token_effect(
    d: Map<Seq<char>, WordModel>,
    t: Seq<char>,
    s: Seq<ValueModel>,
) -> Seq<ValueModel> {
    if d.contains_key(t) {
        match d[t] {
            WordModel::Native(NativeWord::Dup) => dup_effect(s),
            WordModel::Native(NativeWord::Drop) => drop_effect(s),
            WordModel::Native(NativeWord::Swap) => swap_effect(s),
            _ => s,
        }
    } else {
        s.push(token_literal(t))
    }
}

/// What a fragment of simple tokens does to the stack, first token first.
pub open spec fn fragment_effect(
    d: Map<Seq<char>, WordModel>,
    toks: Seq<Seq<char>>,
    s: Seq<ValueModel>,
) -> Seq<ValueModel>
    decreases toks.len(),
{
    if toks.len() == 0 {
        s
    } else {
        fragment_effect(d, toks.drop_first(), token_effect(d, toks[0], s))
    }
}

/// Running one more token at the end of a fragment applies its effect last.
proof fn lemma_fragment_effect_snoc(
    d: Map<Seq<char>, WordModel>,
    toks: Seq<Seq<char>>,
    t: Seq<char>,
    s: Seq<ValueModel>,
)
    ensures
        fragment_effect(d, toks.push(t), s) == token_effect(d, t, fragment_effect(d, toks, s)),
    decreases toks.len(),
{
    if toks.len() == 0 {
        assert(toks.push(t)[0] == t);
        assert(toks.push(t).drop_first() =~= Seq::<Seq<char>>::empty());
        assert(fragment_effect(d, toks.push(t), s) == fragment_effect(
            d,
            toks.push(t).drop_first(),
            token_effect(d, t, s),
        ));
    } else {
        let te0 = token_effect(d, toks[0], s);
        assert(toks.push(t)[0] == toks[0]);
        assert(toks.push(t).drop_first() =~= toks.drop_first().push(t));
        lemma_fragment_effect_snoc(d, toks.drop_first(), t, te0);
        assert(fragment_effect(d, toks.push(t), s) == fragment_effect(
            d,
            toks.drop_first().push(t),
            te0,
        ));
        assert(fragment_effect(d, toks, s) == fragment_effect(d, toks.drop_first(), te0));
    }
}

/// One activation record of the execution loop: the tokens of the fragment
/// being executed, the next token to run, and whether this record stands
/// for a full drain of the queue (a re-entrant run) rather than a single
/// expanded fragment.
pub struct Frame {
    /// The tokens of the fragment.
    pub tokens: Vec<String>,
    /// The index of the next token to run.
    pub next: usize,
    /// Whether this record drains the whole queue before it is popped.
    pub drains: bool,
}

/// The association list a sequence of dictionary entries describes.
pub open spec fn words_model(entries: Seq<(String, Word)>) -> Seq<(Seq<char>, WordModel)>
    decreases entries.len(),
{
    if entries.len() == 0 {
        Seq::<(Seq<char>, WordModel)>::empty()
    } else {
        words_model(entries.drop_last()).push((entries.last().0@, entries.last().1@))
    }
}

proof fn lemma_words_model(entries: Seq<(String, Word)>)
    ensures
        words_model(entries).len() == entries.len(),
        forall|j: int|
            0 <= j < entries.len() ==> #[trigger] words_model(entries)[j] == (
                entries[j].0@,
                entries[j].1@,
            ),
    decreases entries.len(),
{
    if entries.len() > 0 {
        lemma_words_model(entries.drop_last());
    }
}

/// How many tokens one activation of the execution loop will run before it
/// abandons what is left: the guard against programs that never end.
pub const STEP_LIMIT: u64 = 100000;

/// The interpreter: the single execution engine for shell input and for
/// application scripts. It owns the operand stack, the word dictionary, the
/// pending-instruction queue, and the machine's display, keyboard and
/// filesystem.
pub struct ForthMachine {
    /// The operand stack.
    pub stack: Stack,
    /// The word dictionary's entries, oldest registration first.
    pub words: Vec<(String, Word)>,
    /// The pending-instruction queue, oldest fragment first.
    pub queue: Vec<String>,
    /// The execution loop's activation records; empty whenever the
    /// interpreter is at rest.
    pub frames: Vec<Frame>,
    /// The one display handle the interpreter drives.
    pub display: GraphicsHandle,
    /// The process-wide keyboard queue, lent to applications.
    pub keyboard: Keyboard,
    /// The process-wide filesystem, lent to applications.
    pub files: FileSystem,
    /// The steps the current activation may still take before it is cut
    /// off; `run_to_end` refills it at each new top-level activation.
    pub budget: u64,
}

impl ForthMachine {
    /// The word dictionary: a later registration of a name overwrites an
    /// earlier one.
    pub open spec fn dict(&self) -> Map<Seq<char>, WordModel> {
        spec_assoc(words_model(self.words@))
    }

    /// The pending-instruction queue, oldest first.
    pub open spec fn queue_model(&self) -> Seq<Seq<char>> {
        self.queue.deep_view()
    }

    /// Whether no activation of the execution loop is on foot.
    pub open spec fn idle(&self) -> bool {
        self.frames@.len() == 0
    }

    /// Whether no activation of the execution loop is on foot.
    pub fn is_idle(&self) -> (r: bool)
        ensures
            r == self.idle(),
    {
        self.frames.len() == 0
    }

    /// A machine with the default dictionary, an empty queue and stack, a
    /// text-mode display, and an empty keyboard and filesystem.
    pub fn new() -> (r: Self)
        ensures
            r.stack@ == Seq::<ValueModel>::empty(),
            r.queue_model() == Seq::<Seq<char>>::empty(),
            r.dict() == Map::<Seq<char>, WordModel>::empty().insert(
                "dup"@,
                WordModel::Native(NativeWord::Dup),
            ).insert("drop"@, WordModel::Native(NativeWord::Drop)).insert(
                "swap"@,
                WordModel::Native(NativeWord::Swap),
            ),
            r.idle(),
            r.display.is_text_mode(),
            r.keyboard@ == Seq::<crate::input::Key>::empty(),
            r.files.catalog() == Map::<Seq<char>, crate::files::ContentModel>::empty(),
            r.budget == STEP_LIMIT,
    {
        let mut m = ForthMachine {
            stack: Stack::new(),
            words: Vec::new(),
            queue: Vec::new(),
            frames: Vec::new(),
            display: GraphicsHandle::text_mode(),
            keyboard: Keyboard::new(),
            files: FileSystem::new(),
            budget: STEP_LIMIT,
        };
        proof {
            assert(m.queue.deep_view() =~= Seq::<Seq<char>>::empty());
            assert(words_model(m.words@) =~= Seq::<(Seq<char>, WordModel)>::empty());
        }
        m.insert_word("dup", Word::Native(NativeWord::Dup));
        m.insert_word("drop", Word::Native(NativeWord::Drop));
        m.insert_word("swap", Word::Native(NativeWord::Swap));
        m
    }

    /// Registers or replaces a behavior under a name; permitted at any
    /// time, even during execution of another word.
    pub fn insert_word(&mut self, name: &str, behavior: Word)
        ensures
            final(self).dict() == old(self).dict().insert(name@, behavior@),
            final(self).stack@ == old(self).stack@,
            final(self).queue_model() == old(self).queue_model(),
            final(self).frames == old(self).frames,
            final(self).display == old(self).display,
            final(self).keyboard == old(self).keyboard,
            final(self).files == old(self).files,
            final(self).budget == old(self).budget,
    {
        self.words.push((String::from_str(name), behavior));
        proof {
            assert(self.words@.drop_last() =~= old(self).words@);
            assert(words_model(self.words@).drop_last() =~= words_model(old(self).words@));
        }
    }

    /// Appends text to the end of the pending-instruction queue; a side
    /// effect only, nothing is executed.
    pub fn add_instructions(&mut self, text: &str)
        ensures
            final(self).queue_model() == old(self).queue_model().push(text@),
            final(self).stack == old(self).stack,
            final(self).dict() == old(self).dict(),
            final(self).frames == old(self).frames,
            final(self).display == old(self).display,
            final(self).keyboard == old(self).keyboard,
            final(self).files == old(self).files,
            final(self).budget == old(self).budget,
    {
        self.queue.push(String::from_str(text));
        proof {
            assert(self.queue.deep_view() =~= old(self).queue.deep_view().push(text@));
        }
    }

    /// The index of the dictionary entry that decides the name, if any.
    fn find_word(&self, name: &str) -> (r: Option<usize>)
        ensures
            r is Some ==> {
                &&& r->0 < self.words@.len()
                &&& self.dict().contains_key(name@)
                &&& self.dict()[name@] == self.words@[r->0 as int].1@
            },
            r is None ==> !self.dict().contains_key(name@),
    {
        proof {
            lemma_words_model(self.words@);
        }
        let mut i: usize = self.words.len();
        while i > 0
            invariant
                i <= self.words@.len(),
                forall|j: int| i <= j < self.words@.len() ==> self.words@[j].0@ != name@,
            decreases i,
        {
            i = i - 1;
            if str_eq(self.words[i].0.as_str(), name) {
                proof {
                    lemma_words_model(self.words@);
                    let m = words_model(self.words@);
                    assert(forall|j: int| i < j < m.len() ==> m[j].0 != m[i as int].0);
                    lemma_assoc_found(m, i as int);
                }
                return Some(i);
            }
        }
        proof {
            lemma_words_model(self.words@);
            let m = words_model(self.words@);
            assert(forall|j: int| 0 <= j < m.len() ==> m[j].0 != name@);
            lemma_assoc_absent(m, name@);
        }
        None
    }

    /// Pushes an expansion record for the given text on top of the
    /// execution loop's stack of activation records.
    pub(crate) fn push_text_frame(&mut self, text: &str)
        ensures
            final(self).stack == old(self).stack,
            final(self).dict() == old(self).dict(),
            final(self).queue == old(self).queue,
            final(self).display == old(self).display,
            final(self).keyboard == old(self).keyboard,
            final(self).files == old(self).files,
            final(self).budget == old(self).budget,
            final(self).frames@.len() == old(self).frames@.len() + 1,
            final(self).frames@.take(old(self).frames@.len() as int) == old(self).frames@,
            !final(self).frames@.last().drains,
            final(self).frames@.last().next == 0,
            final(self).frames@.last().tokens.deep_view() == spec_tokens(text@),
    {
        let tokens = tokenize(text);
        self.frames.push(Frame { tokens, next: 0, drains: false });
        proof {
            assert(self.frames@.take(old(self).frames@.len() as int) =~= old(self).frames@);
        }
    }

    /// Runs one token: a known word is invoked, an unknown token is pushed
    /// as a literal. The run word is not invoked here: the execution loop
    /// performs the launch itself, and this function reports it.
    fn execute_token(&mut self, token: &String) -> (launch: bool)
        ensures
            final(self).dict() == old(self).dict(),
            final(self).display == old(self).display,
            final(self).keyboard == old(self).keyboard,
            final(self).files == old(self).files,
            final(self).budget == old(self).budget,
            launch == (old(self).dict().contains_key(token@) && old(self).dict()[token@]
                == WordModel::Native(NativeWord::Run)),
            launch ==> final(self).stack == old(self).stack && final(self).queue == old(self).queue
                && final(self).frames == old(self).frames,
            ({
                let d = old(self).dict();
                let t = token@;
                if d.contains_key(t) {
                    match d[t] {
                        WordModel::Native(NativeWord::Dup) => final(self).stack@ == dup_effect(
                            old(self).stack@,
                        ) && final(self).queue == old(self).queue && final(self).frames == old(self).frames,
                        WordModel::Native(NativeWord::Drop) => final(self).stack@ == drop_effect(
                            old(self).stack@,
                        ) && final(self).queue == old(self).queue && final(self).frames == old(self).frames,
                        WordModel::Native(NativeWord::Swap) => final(self).stack@ == swap_effect(
                            old(self).stack@,
                        ) && final(self).queue == old(self).queue && final(self).frames == old(self).frames,
                        WordModel::Native(NativeWord::Run) => true,
                        WordModel::Script(body) => final(self).stack == old(self).stack && final(self).queue == old(self).queue
                            && final(self).frames@.len() == old(self).frames@.len() + 1
                            && final(self).frames@.take(old(self).frames@.len() as int) == old(self).frames@
                            && !final(self).frames@.last().drains
                            && final(self).frames@.last().next == 0
                            && final(self).frames@.last().tokens.deep_view() == spec_tokens(body),
                    }
                } else {
                    final(self).stack@ == old(self).stack@.push(token_literal(t)) && final(self).queue == old(self).queue && final(self).frames == old(self).frames
                }
            }),
    {
        match self.find_word(token.as_str()) {
            None => {
                let v = literal_value(token.as_str());
                self.stack.push(v);
                false
            },
            Some(i) => {
                let w = self.words[i].1.clone();
                match w {
                    Word::Native(NativeWord::Dup) => {
                        let dup = match self.stack.peek() {
                            Some(v) => Some(v.clone()),
                            None => None,
                        };
                        if let Some(v) = dup {
                            self.stack.push(v);
                        }
                        false
                    },
                    Word::Native(NativeWord::Drop) => {
                        self.stack.pop_value();
                        false
                    },
                    Word::Native(NativeWord::Swap) => {
                        if self.stack.len() >= 2 {
                            let b = self.stack.pop_value().unwrap();
                            let a = self.stack.pop_value().unwrap();
                            self.stack.push(b);
                            self.stack.push(a);
                        }
                        false
                    },
                    Word::Native(NativeWord::Run) => true,
                    Word::Script(text) => {
                        self.push_text_frame(text.as_str());
                        false
                    },
                }
            },
        }
    }

    /// Drains the pending-instruction queue depth-first, down to the
    /// activation depth it was entered at: fragments are taken from the
    /// front, tokenized, and run token by token; instructions appended
    /// while a fragment runs are drained before the suspended outer
    /// fragment's remaining tokens resume. This is what a re-entrant nested
    /// run performs; a drain that exhausts the step budget abandons the
    /// remaining work instead of never returning.
    ///
    /// An unknown token is never an error, it becomes data: draining one
    /// fragment of simple tokens (literals and the three stack words)
    /// performs exactly their combined stack effect.
    pub(crate) fn drain(&mut self)
        ensures
            final(self).queue_model() == Seq::<Seq<char>>::empty(),
            final(self).frames@ == old(self).frames@,
            final(self).dict() == old(self).dict(),
            final(self).budget <= old(self).budget,
            ({
                let q = old(self).queue_model();
                let toks = sole_fragment_tokens(q);
                let simple = forall|i: int|
                    0 <= i < toks.len() ==> simple_token(old(self).dict(), toks[i]);
                (q.len() == 1 && toks.len() + 3 <= old(self).budget && simple) ==> final(self).stack@ == fragment_effect(old(self).dict(), toks, old(self).stack@)
            }),
        decreases self.budget, 3int,
    {
        let entry = self.frames.len();
        let ghost b0 = old(self).budget;
        let ghost q0 = old(self).queue_model();
        let ghost toks = sole_fragment_tokens(q0);
        let ghost law = q0.len() == 1 && toks.len() + 3 <= b0 && (forall|i: int|
            0 <= i < toks.len() ==> simple_token(old(self).dict(), toks[i]));
        while (self.frames.len() > entry || self.queue.len() > 0) && self.budget > 0
            invariant
                entry == old(self).frames@.len(),
                self.frames@.len() >= entry,
                self.frames@.take(entry as int) == old(self).frames@,
                self.dict() == old(self).dict(),
                self.budget <= b0,
                b0 == old(self).budget,
                q0 == old(self).queue_model(),
                toks == sole_fragment_tokens(q0),
                law == (q0.len() == 1 && toks.len() + 3 <= b0 && (forall|i: int|
                    0 <= i < toks.len() ==> simple_token(old(self).dict(), toks[i]))),
                law ==> {
                    ||| (self.frames@ == old(self).frames@ && self.queue.deep_view() == q0
                        && self.stack@ == old(self).stack@ && self.budget == b0)
                    ||| (self.frames@.len() == entry + 1 && self.frames@.last().drains
                        && self.frames@.last().tokens@.len() == 0 && self.frames@.last().next == 0
                        && self.queue.deep_view() == q0 && self.stack@ == old(self).stack@
                        && self.budget == b0 - 1)
                    ||| (self.frames@.len() == entry + 1 && self.frames@.last().drains
                        && self.frames@.last().tokens.deep_view() == toks
                        && self.frames@.last().next <= toks.len() && self.queue@.len() == 0
                        && self.stack@ == fragment_effect(
                        old(self).dict(),
                        toks.take(self.frames@.last().next as int),
                        old(self).stack@,
                    ) && self.budget == b0 - 2 - self.frames@.last().next)
                    ||| (self.frames@ == old(self).frames@ && self.queue@.len() == 0
                        && self.stack@ == fragment_effect(old(self).dict(), toks, old(self).stack@))
                },
            decreases self.budget,
        {
            proof {
                assert(self.queue.deep_view().len() == self.queue@.len());
                if self.frames@.len() == entry + 1 {
                    assert(self.frames@.last().tokens.deep_view().len() == self.frames@.last().tokens@.len());
                }
            }
            self.budget = self.budget - 1;
            let fl = self.frames.len();
            if fl == entry {
                self.frames.push(Frame { tokens: Vec::new(), next: 0, drains: true });
                proof {
                    assert(self.frames@.take(entry as int) =~= old(self).frames@);
                }
            } else {
                let frame_done = self.frames[fl - 1].next >= self.frames[fl - 1].tokens.len();
                if frame_done {
                    if self.frames[fl - 1].drains && self.queue.len() > 0 {
                        proof {
                            if law {
                                assert(self.queue.deep_view()[0] == self.queue@[0]@);
                            }
                        }
                        let text = self.queue.remove(0);
                        let tokens = tokenize(text.as_str());
                        let mut f = self.frames.pop().unwrap();
                        f.tokens = tokens;
                        f.next = 0;
                        self.frames.push(f);
                        proof {
                            assert(self.frames@.take(entry as int) =~= old(self).frames@);
                            if law {
                                assert(toks.take(0) =~= Seq::<Seq<char>>::empty());
                            }
                        }
                    } else {
                        proof {
                            if law && fl == entry + 1 && self.frames@.last().tokens.deep_view()
                                == toks {
                                assert(toks.take(self.frames@.last().next as int) =~= toks);
                            }
                        }
                        let ghost pre_frames = self.frames@;
                        self.frames.pop();
                        proof {
                            assert(self.frames@ =~= pre_frames.drop_last());
                            assert(self.frames@.take(entry as int) =~= pre_frames.take(
                                entry as int,
                            ));
                        }
                    }
                } else {
                    let idx = self.frames[fl - 1].next;
                    let token = self.frames[fl - 1].tokens[idx].clone();
                    let fr = &mut self.frames[fl - 1];
                    fr.next = idx + 1;
                    proof {
                        assert(self.frames@.take(entry as int) =~= old(self).frames@);
                        if law && fl == entry + 1 {
                            assert(self.frames@.last().tokens.deep_view()[idx as int]
                                == self.frames@.last().tokens@[idx as int]@);
                            assert(token@ == toks[idx as int]);
                            assert(simple_token(old(self).dict(), toks[idx as int]));
                        }
                    }
                    let launch = self.execute_token(&token);
                    if launch {
                        crate::launch::run(self);
                        proof {
                            assert(self.frames@.take(entry as int) =~= old(self).frames@);
                        }
                    }
                    proof {
                        if law && fl == entry + 1 {
                            let k = idx as int;
                            assert(toks.take(k + 1) =~= toks.take(k).push(toks[k]));
                            lemma_fragment_effect_snoc(
                                old(self).dict(),
                                toks.take(k),
                                toks[k],
                                old(self).stack@,
                            );
                        }
                    }
                }
            }
        }
        self.queue.clear();
        self.frames.truncate(entry);
        proof {
            assert(self.queue.deep_view() =~= Seq::<Seq<char>>::empty());
            assert(self.frames@ =~= old(self).frames@);
        }
    }

    /// Drains the pending-instruction queue: a fresh activation with a full
    /// step budget that returns when the queue is empty. Fragments run
    /// depth-first, and draining one fragment of simple tokens (literals
    /// and the three stack words) performs exactly their combined stack
    /// effect.
    pub fn run_to_end(&mut self)
        ensures
            final(self).queue_model() == Seq::<Seq<char>>::empty(),
            final(self).frames@ == old(self).frames@,
            old(self).idle() ==> final(self).idle(),
            final(self).dict() == old(self).dict(),
            ({
                let q = old(self).queue_model();
                let toks = sole_fragment_tokens(q);
                let simple = forall|i: int|
                    0 <= i < toks.len() ==> simple_token(old(self).dict(), toks[i]);
                (q.len() == 1 && toks.len() + 3 <= STEP_LIMIT && simple) ==> final(self).stack@
                    == fragment_effect(old(self).dict(), toks, old(self).stack@)
            }),
    {
        self.budget = STEP_LIMIT;
        self.drain();
    }
}

} // verus!
