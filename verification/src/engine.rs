//! The guess-evaluation engine: game state, validation and scoring rules.

use vstd::prelude::*;
use vstd::string::StringExecFns;

verus! {

/// Per-letter scoring outcome for one position of a guess against the
/// solution. `Unplayed` marks positions of rows that hold no guess yet; the
/// scoring of a committed guess never produces it.
#[derive(Debug, PartialEq, Eq, Structural, Clone, Copy)]
pub enum HitInfo {
    Hit,
    Contains,
    Miss,
    Unplayed,
}

/// Why the most recent commit attempt was rejected.
#[derive(Debug, Clone, Copy, PartialEq, Eq, Structural)]
pub enum GameError {
    WrongLength,
    InvalidWord,
}

impl GameError {
    /// A human-readable description of the error, for a renderer to show.
    pub fn message(&self) -> (r: String)
        ensures
            *self == GameError::WrongLength ==> r@ == "Word is not the correct length"@,
            *self == GameError::InvalidWord ==> r@ == "Word is not valid"@,
    {
        match self {
            GameError::WrongLength => String::from_str("Word is not the correct length"),
            GameError::InvalidWord => String::from_str("Word is not valid"),
        }
    }
}

/// The classification of one guess position: `Hit` when the characters agree,
/// else `Contains` when the guessed character occurs anywhere in the solution,
/// else `Miss`.
pub open spec fn hit_at(solution: Seq<char>, guess: Seq<char>, i: int) -> HitInfo {
    if guess[i] == solution[i] {
        HitInfo::Hit
    } else if solution.contains(guess[i]) {
        HitInfo::Contains
    } else {
        HitInfo::Miss
    }
}

/// The full scoring of a guess against the solution, one classification per
/// guess position.
pub open spec fn hits_of(solution: Seq<char>, guess: Seq<char>) -> Seq<HitInfo> {
    Seq::new(guess.len(), |i: int| hit_at(solution, guess, i))
}

/// State of one game: the solution word, the dictionary, the committed
/// guesses, the in-progress input and the last commit error. Words are held
/// as character sequences so that all lengths count Unicode scalar values,
/// never bytes.
#[verifier::ext_equal]
pub struct GameState {
    pub valid_words: Vec<Vec<char>>,
    pub guesses: Vec<Vec<char>>,
    pub current_guess: Vec<char>,
    pub word: Vec<char>,
    pub max_tries: u16,
    pub last_error: Option<GameError>,
    pub any_word: bool,
}

impl GameState {
    /// The dictionary as a sequence of character sequences.
    pub open spec fn dict(&self) -> Seq<Seq<char>> {
        self.valid_words.deep_view()
    }

    /// The committed guesses as a sequence of character sequences.
    pub open spec fn history(&self) -> Seq<Seq<char>> {
        self.guesses.deep_view()
    }

    /// A guess passes validation iff it has the solution's length and, when
    /// the dictionary is enforced, is a member of the dictionary.
    pub open spec fn acceptable(&self, g: Seq<char>) -> bool {
        g.len() == self.word@.len() && (self.any_word || self.dict().contains(g))
    }

    /// Well-formedness: the input buffer never exceeds the solution's length,
    /// and every committed guess passed validation.
    pub open spec fn wf(&self) -> bool {
        &&& self.current_guess@.len() <= self.word@.len()
        &&& forall|i: int|
            0 <= i < self.history().len() ==> self.acceptable(#[trigger] self.history()[i])
    }

    /// The game is won iff the most recently committed guess equals the
    /// solution.
    pub open spec fn spec_won(&self) -> bool {
        self.history().len() > 0 && self.history().last() == self.word@
    }

    /// Creates a fresh game over the given solution word and dictionary, with
    /// an empty history and input buffer and the default attempt bound.
    pub fn new(word: Vec<char>, valid_words: Vec<Vec<char>>, any_word: bool) -> (g: GameState)
        ensures
            g.word == word,
            g.valid_words == valid_words,
            g.any_word == any_word,
            g.guesses@.len() == 0,
            g.current_guess@.len() == 0,
            g.max_tries == 6u16,
            g.last_error is None,
            g.wf(),
    {
        GameState {
            valid_words,
            guesses: Vec::new(),
            current_guess: Vec::new(),
            word,
            max_tries: 6,
            last_error: None,
            any_word,
        }
    }

    /// Validates a finished guess and, when it passes, appends it to the
    /// history. Returns whether the accepted guess wins the game, or the
    /// reason the guess was rejected. Validation checks the length first, so
    /// a guess of the wrong length is never reported as an invalid word.
    pub fn guess(&mut self, guess: Vec<char>) -> (r: Result<bool, GameError>)
        ensures
            final(self).word == old(self).word,
            final(self).valid_words == old(self).valid_words,
            final(self).current_guess == old(self).current_guess,
            final(self).max_tries == old(self).max_tries,
            final(self).any_word == old(self).any_word,
            final(self).last_error == old(self).last_error,
            guess@.len() != old(self).word@.len() ==> {
                &&& r == Err::<bool, GameError>(GameError::WrongLength)
                &&& final(self).guesses == old(self).guesses
            },
            guess@.len() == old(self).word@.len() && !old(self).any_word && !old(
                self,
            ).dict().contains(guess@) ==> {
                &&& r == Err::<bool, GameError>(GameError::InvalidWord)
                &&& final(self).guesses == old(self).guesses
            },
            old(self).acceptable(guess@) ==> {
                &&& final(self).history() == old(self).history().push(guess@)
                &&& r == Ok::<bool, GameError>(guess@ == old(self).word@)
            },
            old(self).wf() ==> final(self).wf(),
    {
        if guess.len() != self.word.len() {
            return Err(GameError::WrongLength);
        }
        if !self.any_word && !contains_word(&self.valid_words, &guess) {
            return Err(GameError::InvalidWord);
        }
        let won_now = word_eq(&guess, &self.word);
        let ghost g_view = guess@;
        self.guesses.push(guess);
        proof {
            assert(self.guesses@[old(self).guesses@.len() as int].deep_view() =~= g_view);
            assert(self.history() =~= old(self).history().push(g_view));
        }
        Ok(won_now)
    }

    /// Reports whether the game is won: the most recent guess, if any,
    /// equals the solution.
    pub fn won(&self) -> (r: bool)
        ensures
            r == self.spec_won(),
    {
        if self.guesses.len() == 0 {
            return false;
        }
        let r = word_eq(&self.guesses[self.guesses.len() - 1], &self.word);
        proof {
            lemma_word_list_index(&self.guesses, self.guesses@.len() - 1);
        }
        r
    }

    /// Scores the committed guess at the given history position against the
    /// solution. The position must name a committed guess; committed guesses
    /// always have the solution's length.
    pub fn get_guess_hits(&self, guess_position: usize) -> (hits: Vec<HitInfo>)
        requires
            guess_position < self.history().len(),
            self.history()[guess_position as int].len() == self.word@.len(),
        ensures
            hits@ == hits_of(self.word@, self.history()[guess_position as int]),
    {
        proof {
            lemma_word_list_index(&self.guesses, guess_position as int);
        }
        let guess = &self.guesses[guess_position];
        let ghost target = hits_of(self.word@, guess@);
        let mut hits: Vec<HitInfo> = Vec::new();
        let mut i: usize = 0;
        while i < guess.len()
            invariant
                i <= guess.len(),
                guess@.len() == self.word@.len(),
                target == hits_of(self.word@, guess@),
                hits@ =~= target.subrange(0, i as int),
            decreases guess.len() - i,
        {
            let c = guess[i];
            if c == self.word[i] {
                hits.push(HitInfo::Hit);
            } else if contains_char(&self.word, c) {
                hits.push(HitInfo::Contains);
            } else {
                hits.push(HitInfo::Miss);
            }
            proof {
                assert(hits@ =~= target.subrange(0, i + 1 as int));
            }
            i += 1;
        }
        proof {
            assert(hits@ =~= target);
        }
        hits
    }

    /// Records the reason the most recent commit attempt failed.
    fn set_last_error(&mut self, error: GameError)
        ensures
            *final(self) == (GameState { last_error: Some(error), ..*old(self) }),
    {
        self.last_error = Some(error);
    }

    /// Clears the record of a failed commit attempt.
    fn reset_error(&mut self)
        ensures
            *final(self) == (GameState { last_error: None, ..*old(self) }),
    {
        self.last_error = None;
    }

    /// Removes the last character of the input buffer; a no-op when the
    /// buffer is empty.
    pub fn back(&mut self)
        ensures
            removes_char(*old(self), *final(self)),
            old(self).wf() ==> final(self).wf(),
    {
        if self.current_guess.len() > 0 {
            self.current_guess.pop();
        }
        proof {
            assert(self.history() =~= old(self).history());
            assert(self.dict() =~= old(self).dict());
        }
    }

    /// Appends a character, folded to lowercase, to the input buffer; a
    /// no-op once the buffer has reached the solution's length.
    pub fn add_char(&mut self, c: char)
        ensures
            adds_char(*old(self), *final(self), c),
            old(self).wf() ==> final(self).wf(),
    {
        if self.current_guess.len() < self.word.len() {
            let lc = to_lower_char(c);
            self.current_guess.push(lc);
        }
        proof {
            assert(self.history() =~= old(self).history());
            assert(self.dict() =~= old(self).dict());
        }
    }

    /// Commits the input buffer as a guess attempt. A rejected buffer sets
    /// the error it was rejected for; an accepted one joins the history and
    /// clears the error. The buffer empties either way, so the player retypes
    /// after a failure rather than edits.
    pub fn confirm(&mut self)
        ensures
            commits_input(*old(self), *final(self)),
            old(self).wf() ==> final(self).wf(),
    {
        let attempt = copy_chars(&self.current_guess);
        let result = self.guess(attempt);
        match result {
            Ok(_) => {
                self.reset_error();
            },
            Err(error) => {
                self.set_last_error(error);
            },
        }
        self.current_guess = Vec::new();
    }

    /// The characters a renderer shows on one board row: a committed guess,
    /// the in-progress input padded with placeholders to the solution's
    /// length, or a blank row of placeholders.
    pub fn row_text(&self, row: usize) -> (r: Vec<char>)
        requires
            self.wf(),
        ensures
            row < self.history().len() ==> r@ == self.history()[row as int],
            row == self.history().len() ==> r@ == self.current_guess@ + Seq::new(
                (self.word@.len() - self.current_guess@.len()) as nat,
                |i: int| '_',
            ),
            row > self.history().len() ==> r@ == Seq::new(self.word@.len(), |i: int| '_'),
    {
        if row < self.guesses.len() {
            proof {
                lemma_word_list_index(&self.guesses, row as int);
            }
            copy_chars(&self.guesses[row])
        } else if row == self.guesses.len() {
            pad_row(&self.current_guess, self.word.len())
        } else {
            let empty: Vec<char> = Vec::new();
            let r = pad_row(&empty, self.word.len());
            proof {
                assert(r@ =~= Seq::new(self.word@.len(), |i: int| '_'));
            }
            r
        }
    }

    /// The classifications a renderer colors one board row with: the scoring
    /// of a committed guess, or a row of `Unplayed` marks.
    pub fn row_hits(&self, row: usize) -> (r: Vec<HitInfo>)
        requires
            self.wf(),
        ensures
            row < self.history().len() ==> r@ == hits_of(
                self.word@,
                self.history()[row as int],
            ),
            row >= self.history().len() ==> r@ == Seq::new(
                self.word@.len(),
                |i: int| HitInfo::Unplayed,
            ),
    {
        if row < self.guesses.len() {
            proof {
                assert(self.acceptable(self.history()[row as int]));
            }
            self.get_guess_hits(row)
        } else {
            let mut r: Vec<HitInfo> = Vec::new();
            let mut i: usize = 0;
            while i < self.word.len()
                invariant
                    i <= self.word@.len(),
                    r@ =~= Seq::new(i as nat, |j: int| HitInfo::Unplayed),
                decreases self.word@.len() - i,
            {
                r.push(HitInfo::Unplayed);
                i += 1;
                proof {
                    assert(r@ =~= Seq::new(i as nat, |j: int| HitInfo::Unplayed));
                }
            }
            proof {
                assert(r@ =~= Seq::new(self.word@.len(), |j: int| HitInfo::Unplayed));
            }
            r
        }
    }
}

/// Pads a word on the right with placeholder characters up to the given
/// width.
fn pad_row(prefix: &Vec<char>, width: usize) -> (r: Vec<char>)
    requires
        prefix@.len() <= width,
    ensures
        r@ == prefix@ + Seq::new((width - prefix@.len()) as nat, |i: int| '_'),
{
    let mut r = copy_chars(prefix);
    while r.len() < width
        invariant
            prefix@.len() <= r@.len() <= width,
            r@ =~= prefix@ + Seq::new((r@.len() - prefix@.len()) as nat, |i: int| '_'),
        decreases width - r@.len(),
    {
        r.push('_');
        proof {
            assert(r@ =~= prefix@ + Seq::new((r@.len() - prefix@.len()) as nat, |i: int| '_'));
        }
    }
    r
}

/// Chooses the solution for a session from a non-empty word list, using a
/// caller-supplied random draw.
pub fn pick_solution(words: &Vec<Vec<char>>, draw: usize) -> (r: Vec<char>)
    requires
        words@.len() > 0,
    ensures
        r@ == words.deep_view()[draw as int % words@.len() as int],
{
    let i = draw % words.len();
    proof {
        lemma_word_list_index(words, i as int);
    }
    copy_chars(&words[i])
}

/// Scoring a guess of the solution's length yields one classification per
/// position; a position is a `Hit` exactly when the guessed character equals
/// the solution's; and every classification is `Hit`, `Contains` or `Miss` --
/// never `Unplayed`.
pub proof fn lemma_hits_shape(solution: Seq<char>, guess: Seq<char>)
    requires
        guess.len() == solution.len(),
    ensures
        hits_of(solution, guess).len() == solution.len(),
        forall|i: int|
            0 <= i < solution.len() ==> ((#[trigger] hits_of(solution, guess)[i]) == HitInfo::Hit
                <==> guess[i] == solution[i]),
        forall|i: int|
            0 <= i < solution.len() ==> (#[trigger] hits_of(solution, guess)[i]) is Hit || hits_of(
                solution,
                guess,
            )[i] is Contains || hits_of(solution, guess)[i] is Miss,
{
}

/// A commit attempt whose input has the wrong length leaves the history
/// alone, reports `WrongLength`, and empties the input buffer.
pub proof fn lemma_wrong_length_commit(pre: GameState, post: GameState)
    requires
        commits_input(pre, post),
        pre.current_guess@.len() != pre.word@.len(),
    ensures
        post.history() == pre.history(),
        post.last_error == Some(GameError::WrongLength),
        post.current_guess@.len() == 0,
{
}

/// A commit attempt whose input is absent from an enforced dictionary leaves
/// the history alone, reports `InvalidWord`, and empties the input buffer.
pub proof fn lemma_invalid_word_commit(pre: GameState, post: GameState)
    requires
        commits_input(pre, post),
        pre.current_guess@.len() == pre.word@.len(),
        !pre.any_word,
        !pre.dict().contains(pre.current_guess@),
    ensures
        post.history() == pre.history(),
        post.last_error == Some(GameError::InvalidWord),
        post.current_guess@.len() == 0,
{
}

/// Every commit attempt, accepted or rejected, empties the input buffer.
pub proof fn lemma_commit_clears_input(pre: GameState, post: GameState)
    requires
        commits_input(pre, post),
    ensures
        post.current_guess@.len() == 0,
{
}

/// Committing an input equal to the solution wins the game, provided the
/// solution passes its own validation (it always does when any word is
/// allowed or the dictionary holds the solution).
pub proof fn lemma_commit_solution_wins(pre: GameState, post: GameState)
    requires
        commits_input(pre, post),
        pre.current_guess@ == pre.word@,
        pre.any_word || pre.dict().contains(pre.word@),
    ensures
        post.spec_won(),
{
    assert(post.history().last() == pre.word@);
    assert(post.word@ == pre.word@);
}

/// Editing the input buffer never changes whether the game is won: only a
/// commit can do that.
pub proof fn lemma_won_stable_under_edits(pre: GameState, post: GameState, c: char)
    requires
        adds_char(pre, post, c) || removes_char(pre, post),
    ensures
        post.spec_won() == pre.spec_won(),
{
    assert(post.history() =~= pre.history());
}

/// Appending to a full input buffer changes nothing at all.
pub proof fn lemma_add_char_at_capacity(pre: GameState, post: GameState, c: char)
    requires
        adds_char(pre, post, c),
        pre.current_guess@.len() >= pre.word@.len(),
    ensures
        post == pre,
{
    assert(post =~= pre);
}

/// Removing from an empty input buffer changes nothing at all.
pub proof fn lemma_backspace_on_empty(pre: GameState, post: GameState)
    requires
        removes_char(pre, post),
        pre.current_guess@.len() == 0,
    ensures
        post == pre,
{
    assert(post =~= pre);
}

/// The lowercase character that `to_lower_char` folds a character to. Full
/// Unicode case folding is left unstated: it depends on the character alone.
pub uninterp spec fn lower_char_of(c: char) -> char;

/// Relies on char::to_lowercase: the lowercase mapping depends on the
/// character alone, and its iterator always yields at least one character,
/// so taking the first one never panics.
#[verifier::external_body]
fn to_lower_char(c: char) -> (r: char)
    ensures
        r == lower_char_of(c),
{
    c.to_lowercase().next().unwrap()
}

/// Holds between the states before and after appending one character to the
/// input buffer: when the buffer is shorter than the solution the folded
/// character goes on its end, otherwise nothing changes; no other part of the
/// state moves.
pub open spec fn adds_char(pre: GameState, post: GameState, c: char) -> bool {
    &&& post.word == pre.word
    &&& post.valid_words == pre.valid_words
    &&& post.guesses == pre.guesses
    &&& post.max_tries == pre.max_tries
    &&& post.last_error == pre.last_error
    &&& post.any_word == pre.any_word
    &&& if pre.current_guess@.len() < pre.word@.len() {
        post.current_guess@ == pre.current_guess@.push(lower_char_of(c))
    } else {
        post.current_guess == pre.current_guess
    }
}

/// Holds between the states before and after removing one character from the
/// end of the input buffer: a no-op on an empty buffer; no other part of the
/// state moves.
pub open spec fn removes_char(pre: GameState, post: GameState) -> bool {
    &&& post.word == pre.word
    &&& post.valid_words == pre.valid_words
    &&& post.guesses == pre.guesses
    &&& post.max_tries == pre.max_tries
    &&& post.last_error == pre.last_error
    &&& post.any_word == pre.any_word
    &&& if pre.current_guess@.len() > 0 {
        post.current_guess@ == pre.current_guess@.drop_last()
    } else {
        post.current_guess == pre.current_guess
    }
}

/// Holds between the states before and after a commit attempt. The input
/// buffer empties whatever happens. A buffer of the wrong length is rejected
/// with `WrongLength`; one missing from an enforced dictionary is rejected
/// with `InvalidWord`; a rejected guess never reaches the history. An
/// accepted guess goes on the end of the history and clears the error.
pub open spec fn commits_input(pre: GameState, post: GameState) -> bool {
    &&& post.word == pre.word
    &&& post.valid_words == pre.valid_words
    &&& post.max_tries == pre.max_tries
    &&& post.any_word == pre.any_word
    &&& post.current_guess@.len() == 0
    &&& if pre.current_guess@.len() != pre.word@.len() {
        &&& post.guesses == pre.guesses
        &&& post.last_error == Some(GameError::WrongLength)
    } else if !pre.any_word && !pre.dict().contains(pre.current_guess@) {
        &&& post.guesses == pre.guesses
        &&& post.last_error == Some(GameError::InvalidWord)
    } else {
        &&& post.history() == pre.history().push(pre.current_guess@)
        &&& post.last_error is None
    }
}

/// Copies a word, character by character.
fn copy_chars(v: &Vec<char>) -> (r: Vec<char>)
    ensures
        r@ == v@,
{
    let mut r: Vec<char> = Vec::new();
    let mut i: usize = 0;
    while i < v.len()
        invariant
            i <= v.len(),
            r@ =~= v@.subrange(0, i as int),
        decreases v.len() - i,
    {
        r.push(v[i]);
        i += 1;
    }
    proof {
        assert(r@ =~= v@);
    }
    r
}

/// Compares two words character by character.
fn word_eq(a: &Vec<char>, b: &Vec<char>) -> (r: bool)
    ensures
        r == (a@ == b@),
{
    if a.len() != b.len() {
        return false;
    }
    let mut i: usize = 0;
    while i < a.len()
        invariant
            i <= a.len(),
            a@.len() == b@.len(),
            forall|j: int| 0 <= j < i ==> a@[j] == b@[j],
        decreases a.len() - i,
    {
        if a[i] != b[i] {
            return false;
        }
        i += 1;
    }
    proof {
        assert(a@ =~= b@);
    }
    true
}

/// Tests whether a character occurs anywhere in a word.
fn contains_char(v: &Vec<char>, c: char) -> (r: bool)
    ensures
        r == v@.contains(c),
{
    let mut i: usize = 0;
    while i < v.len()
        invariant
            i <= v.len(),
            forall|j: int| 0 <= j < i ==> v@[j] != c,
        decreases v.len() - i,
    {
        if v[i] == c {
            return true;
        }
        i += 1;
    }
    false
}

/// The deep view of a word list indexes to the views of its words.
proof fn lemma_word_list_index(words: &Vec<Vec<char>>, i: int)
    requires
        0 <= i < words@.len(),
    ensures
        words.deep_view()[i] == words@[i]@,
{
    assert(words.deep_view()[i] =~= words@[i]@);
}

/// Tests whether a word list contains a word.
fn contains_word(words: &Vec<Vec<char>>, w: &Vec<char>) -> (r: bool)
    ensures
        r == words.deep_view().contains(w@),
{
    let mut i: usize = 0;
    while i < words.len()
        invariant
            i <= words.len(),
            forall|j: int| 0 <= j < i ==> words.deep_view()[j] != w@,
        decreases words.len() - i,
    {
        if word_eq(&words[i], w) {
            proof {
                lemma_word_list_index(words, i as int);
                assert(words.deep_view().contains(w@)) by {
                    assert(words.deep_view()[i as int] == w@);
                }
            }
            return true;
        }
        proof {
            lemma_word_list_index(words, i as int);
        }
        i += 1;
    }
    false
}

} // verus!
