//! Failures as chains of causes, and their two renderings.

use vstd::prelude::*;

verus! {

/// The texts of `parts`, written one after another with `sep` between
/// neighbours. Nothing is written before the first or after the last.
pub open spec fn joined(parts: Seq<Seq<char>>, sep: Seq<char>) -> Seq<char>
    decreases parts.len(),
{
    if parts.len() == 0 {
        Seq::empty()
    } else if parts.len() == 1 {
        parts[0]
    } else {
        joined(parts.drop_last(), sep) + sep + parts.last()
    }
}

/// Whether `part` stands in `text` from position `at` on.
pub open spec fn occurs_at(text: Seq<char>, part: Seq<char>, at: int) -> bool {
    0 <= at && at + part.len() <= text.len() && text.subrange(at, at + part.len()) == part
}

/// Whether `part` stands somewhere in `text`.
pub open spec fn contains_text(text: Seq<char>, part: Seq<char>) -> bool {
    exists|at: int| occurs_at(text, part, at)
}

/// The position in `joined(parts, sep)` at which part `i` starts: behind
/// the parts before it and one separator for each of them.
pub open spec fn offset_in_joined(parts: Seq<Seq<char>>, sep: Seq<char>, i: int) -> int
    decreases i,
{
    if i <= 0 {
        0
    } else {
        offset_in_joined(parts, sep, i - 1) + parts[i - 1].len() + sep.len()
    }
}

/// The start of a part depends on the parts before it alone.
proof fn lemma_offset_of_prefix(parts: Seq<Seq<char>>, sep: Seq<char>, n: int, i: int)
    requires
        0 <= i <= n <= parts.len(),
    ensures
        offset_in_joined(parts.take(n), sep, i) == offset_in_joined(parts, sep, i),
    decreases i,
{
    if i > 0 {
        lemma_offset_of_prefix(parts, sep, n, i - 1);
    }
}

/// The joined text is as long as it takes to hold its last part at the
/// position that `offset_in_joined` gives.
pub proof fn lemma_joined_len(parts: Seq<Seq<char>>, sep: Seq<char>)
    requires
        parts.len() >= 1,
    ensures
        joined(parts, sep).len() == offset_in_joined(parts, sep, parts.len() - 1)
            + parts.last().len(),
    decreases parts.len(),
{
    if parts.len() >= 2 {
        let front = parts.drop_last();
        lemma_joined_len(front, sep);
        assert(front =~= parts.take(parts.len() - 1));
        lemma_offset_of_prefix(parts, sep, parts.len() - 1, parts.len() - 2);
    }
}

/// Every part stands in the joined text, whole, at the position that
/// `offset_in_joined` gives.
pub proof fn lemma_joined_holds_part(parts: Seq<Seq<char>>, sep: Seq<char>, i: int)
    requires
        0 <= i < parts.len(),
    ensures
        occurs_at(joined(parts, sep), parts[i], offset_in_joined(parts, sep, i)),
    decreases parts.len(),
{
    let text = joined(parts, sep);
    let at = offset_in_joined(parts, sep, i);
    if parts.len() == 1 {
        assert(text.subrange(0, parts[0].len() as int) =~= parts[0]);
    } else {
        let front = parts.drop_last();
        let head = joined(front, sep);
        assert(front =~= parts.take(parts.len() - 1));
        lemma_joined_len(front, sep);
        lemma_offset_of_prefix(parts, sep, parts.len() - 1, parts.len() - 2);
        if i == parts.len() - 1 {
            assert(at == head.len() + sep.len());
            assert(text.subrange(at, at + parts[i].len()) =~= parts[i]);
        } else {
            lemma_joined_holds_part(front, sep, i);
            lemma_offset_of_prefix(parts, sep, parts.len() - 1, i);
            assert(at + parts[i].len() <= head.len());
            assert(text.subrange(at, at + parts[i].len()) =~= head.subrange(
                at,
                at + parts[i].len(),
            ));
        }
    }
}

/// The parts stand in the joined text in their order: a part ends before
/// a later one starts.
pub proof fn lemma_joined_in_order(parts: Seq<Seq<char>>, sep: Seq<char>, i: int, j: int)
    requires
        0 <= i < j < parts.len(),
    ensures
        offset_in_joined(parts, sep, i) + parts[i].len() + sep.len() <= offset_in_joined(
            parts,
            sep,
            j,
        ),
    decreases j,
{
    if i + 1 < j {
        lemma_joined_in_order(parts, sep, i, j - 1);
    }
}

/// The text of every string of `strings`, in order.
pub open spec fn texts(strings: Seq<String>) -> Seq<Seq<char>> {
    Seq::new(strings.len(), |i: int| strings[i]@)
}

/// Writes the strings of `parts` one after another with `sep` between
/// neighbours.
pub fn join(parts: &Vec<String>, sep: &str) -> (out: String)
    ensures
        out@ == joined(texts(parts@), sep@),
{
    let mut out = String::new();
    let mut i: usize = 0;
    while i < parts.len()
        invariant
            i <= parts.len(),
            out@ == joined(texts(parts@).take(i as int), sep@),
        decreases parts.len() - i,
    {
        proof {
            let all = texts(parts@);
            assert(all.take(i + 1).drop_last() =~= all.take(i as int));
            assert(all.take(i + 1).last() == parts@[i as int]@);
            if i > 0 {
                assert(all.take(i as int).len() == i);
            }
        }
        if i > 0 {
            out.append(sep);
        }
        out.append(parts[i].as_str());
        i = i + 1;
    }
    proof {
        assert(texts(parts@).take(parts.len() as int) =~= texts(parts@));
    }
    out
}

/// What stands between two causes in the terse rendering.
pub open spec fn terse_separator() -> Seq<char> {
    ": "@
}

/// What stands between two causes in the verbose rendering: each cause
/// after the first starts a line of its own and is marked as a cause.
pub open spec fn verbose_separator() -> Seq<char> {
    "\n  caused by: "@
}

/// The terse rendering of a chain of causes: the causes in order, with a
/// colon and a space between them.
pub open spec fn terse_text(chain: Seq<Seq<char>>) -> Seq<char> {
    joined(chain, terse_separator())
}

/// The verbose rendering of a chain of causes: the causes in order, each
/// one after the first on a line of its own.
pub open spec fn verbose_text(chain: Seq<Seq<char>>) -> Seq<char> {
    joined(chain, verbose_separator())
}

/// A failure: what went wrong, followed by the causes behind it. The first
/// message is the outermost context, the last one the root cause. There is
/// always at least one message.
#[derive(Debug)]
pub struct Failure {
    chain: Vec<String>,
}

impl View for Failure {
    type V = Seq<Seq<char>>;

    /// The messages of the chain, outermost first.
    closed spec fn view(&self) -> Seq<Seq<char>> {
        texts(self.chain@)
    }
}

impl Failure {
    #[verifier::type_invariant]
    spec fn nonempty(self) -> bool {
        self.chain@.len() >= 1
    }

    /// A failure with `message` as its only cause.
    pub fn new(message: String) -> (failure: Failure)
        ensures
            failure@ == seq![message@],
    {
        let mut chain: Vec<String> = Vec::new();
        chain.push(message);
        assert(texts(chain@) =~= seq![message@]);
        Failure { chain }
    }

    /// The same failure seen from one layer further out: `context` says what
    /// was being done, and the old messages follow as its causes.
    pub fn context(self, context: String) -> (failure: Failure)
        ensures
            failure@ == seq![context@] + self@,
    {
        let mut chain = self.chain;
        chain.insert(0, context);
        assert(texts(chain@) =~= seq![context@] + self@);
        Failure { chain }
    }

    /// The failure with the given messages, outermost first, if there is at
    /// least one.
    pub fn from_messages(messages: Vec<String>) -> (failure: Option<Failure>)
        ensures
            failure is Some <==> messages@.len() >= 1,
            failure matches Some(f) ==> f@ == texts(messages@),
    {
        if messages.len() >= 1 {
            Some(Failure { chain: messages })
        } else {
            None
        }
    }

    /// The messages of the chain, outermost first.
    pub fn messages(&self) -> (messages: &Vec<String>)
        ensures
            texts(messages@) == self@,
            messages@.len() >= 1,
    {
        proof {
            use_type_invariant(self);
        }
        &self.chain
    }

    /// The outermost message: what failed, as the last layer saw it.
    pub fn message(&self) -> (message: &String)
        ensures
            message@ == self@.first(),
    {
        proof {
            use_type_invariant(self);
        }
        &self.chain[0]
    }

    /// The innermost message: the failure that started the chain.
    pub fn root_cause(&self) -> (message: &String)
        ensures
            message@ == self@.last(),
    {
        proof {
            use_type_invariant(self);
        }
        &self.chain[self.chain.len() - 1]
    }

    /// The number of messages in the chain.
    pub fn len(&self) -> (n: usize)
        ensures
            n == self@.len(),
            n >= 1,
    {
        proof {
            use_type_invariant(self);
        }
        self.chain.len()
    }

    /// The terse rendering: the messages with a colon and a space between
    /// them.
    pub fn terse(&self) -> (out: String)
        ensures
            out@ == terse_text(self@),
    {
        join(&self.chain, ": ")
    }

    /// The verbose rendering: each message after the first on a line of
    /// its own.
    pub fn verbose(&self) -> (out: String)
        ensures
            out@ == verbose_text(self@),
    {
        join(&self.chain, "\n  caused by: ")
    }
}

} // verus!
