use vstd::prelude::*;
use argon2::password_hash::rand_core::RngCore;
use crate::errors::{AppError, DbFailure};
use crate::models::{Token, User, UserId};
use crate::guards::{ascii_text, is_visible_ascii, spec_header_token};

verus! {

/// The character of a 6-bit value in the standard base64 alphabet
/// (`A`-`Z`, `a`-`z`, `0`-`9`, `+`, `/`).
pub open spec fn base64_char(v: int) -> char {
    if v < 26 {
        (65 + v) as char
    } else if v < 52 {
        (97 + (v - 26)) as char
    } else if v < 62 {
        (48 + (v - 52)) as char
    } else if v == 62 {
        '+'
    } else {
        '/'
    }
}

/// Standard base64 with `=` padding: each group of three bytes becomes four
/// characters of six bits each; a final group of one or two bytes is padded.
pub open spec fn base64_standard(bytes: Seq<u8>) -> Seq<char>
    decreases bytes.len(),
{
    if bytes.len() == 0 {
        Seq::empty()
    } else if bytes.len() == 1 {
        seq![base64_char((bytes[0] / 4) as int), base64_char((bytes[0] % 4) * 16), '=', '=']
    } else if bytes.len() == 2 {
        seq![
            base64_char((bytes[0] / 4) as int),
            base64_char((bytes[0] % 4) * 16 + bytes[1] / 16),
            base64_char((bytes[1] % 16) * 4),
            '=',
        ]
    } else {
        seq![
            base64_char((bytes[0] / 4) as int),
            base64_char((bytes[0] % 4) * 16 + bytes[1] / 16),
            base64_char((bytes[1] % 16) * 4 + bytes[2] / 64),
            base64_char((bytes[2] % 64) as int),
        ] + base64_standard(bytes.subrange(3, bytes.len() as int))
    }
}

/// `base64::encode` (the `STANDARD` engine): standard base64 with padding.
/// The crate panics when the encoded length overflows `usize`, which the
/// precondition rules out.
#[verifier::external_body]
#[allow(deprecated)]
fn base64_encode(data: &[u8]) -> (s: String)
    requires
        4 * ((data@.len() + 2) / 3) <= usize::MAX,
    ensures
        s@ == base64_standard(data@),
{
    base64::encode(data)
}

/// The number of random bytes a session token is made of.
pub const TOKEN_BYTES: usize = 32;

/// `OsRng.fill_bytes` on a buffer of `len` bytes: random bytes from the
/// operating system, of which only the count is promised; the call panics if
/// the operating system cannot supply them.
#[verifier::external_body]
fn random_bytes(len: usize) -> (bytes: Vec<u8>)
    ensures
        bytes@.len() == len,
{
    let mut bytes = vec![0u8; len];
    argon2::password_hash::rand_core::OsRng.fill_bytes(&mut bytes);
    bytes
}

/// The most session tokens a user keeps.
pub const MAX_TOKENS_PER_USER: i64 = 3;

/// A step of issuing a session token that needs the database.
#[derive(Debug)]
pub enum TokenAction {
    /// Store the new token.
    InsertToken(Token),
    /// Count the tokens the user has.
    CountTokens(UserId),
    /// Find the user's oldest token.
    FetchOldestToken(UserId),
    /// Delete a token.
    DeleteToken(String),
    /// Issuing is over: the new token, or why it failed.
    Finish(Result<String, AppError>),
}

/// What the database answered to the last step.
#[derive(Debug)]
pub enum TokenEvent {
    Inserted(Result<(), DbFailure>),
    Counted(i64),
    OldestFound(Result<String, DbFailure>),
    Deleted(Result<(), DbFailure>),
}

/// Where issuing a token stands.
#[derive(PartialEq, Eq, Structural, Debug, Clone, Copy)]
pub enum TokenStage {
    Inserting,
    Counting,
    FetchingOldest,
    Deleting,
    Done,
}

/// Issuing a session token for a user: store it, and when the user then has
/// more than `MAX_TOKENS_PER_USER` tokens, delete the oldest.
pub struct TokenIssue {
    token: String,
    user_id: UserId,
    stage: TokenStage,
}

/// The event that answers the action of each stage.
pub open spec fn answers(stage: TokenStage, event: TokenEvent) -> bool {
    match stage {
        TokenStage::Inserting => event is Inserted,
        TokenStage::Counting => event is Counted,
        TokenStage::FetchingOldest => event is OldestFound,
        TokenStage::Deleting => event is Deleted,
        TokenStage::Done => false,
    }
}

/// The number of tokens a user is left with when `counted` were counted
/// after storing a new one.
pub open spec fn tokens_left(counted: int) -> int {
    if counted > MAX_TOKENS_PER_USER {
        counted - 1
    } else {
        counted
    }
}

/// A database answer to a step, when the statement succeeded.
pub ghost enum TokenAnswer {
    Inserted,
    Counted(int),
    OldestFound(Seq<char>),
    Deleted,
}

/// The statement an action asks for, or how issuing ended.
pub ghost enum TokenStatement {
    Insert(Seq<char>),
    Count,
    FetchOldest,
    Delete(Seq<char>),
    Finish(Seq<char>),
    Fail,
}

/// The answer an event carries, if the statement succeeded.
pub open spec fn event_answer(event: TokenEvent) -> Option<TokenAnswer> {
    match event {
        TokenEvent::Inserted(Ok(())) => Some(TokenAnswer::Inserted),
        TokenEvent::Counted(n) => Some(TokenAnswer::Counted(n as int)),
        TokenEvent::OldestFound(Ok(t)) => Some(TokenAnswer::OldestFound(t@)),
        TokenEvent::Deleted(Ok(())) => Some(TokenAnswer::Deleted),
        _ => None,
    }
}

/// The statement an action asks for.
pub open spec fn action_statement(action: TokenAction) -> TokenStatement {
    match action {
        TokenAction::InsertToken(t) => TokenStatement::Insert(t.token@),
        TokenAction::CountTokens(_) => TokenStatement::Count,
        TokenAction::FetchOldestToken(_) => TokenStatement::FetchOldest,
        TokenAction::DeleteToken(t) => TokenStatement::Delete(t@),
        TokenAction::Finish(Ok(t)) => TokenStatement::Finish(t@),
        TokenAction::Finish(Err(_)) => TokenStatement::Fail,
    }
}

/// The next stage and statement of issuing `token`, on a successful answer.
pub open spec fn spec_step(stage: TokenStage, token: Seq<char>, answer: TokenAnswer) -> (TokenStage, TokenStatement) {
    match (stage, answer) {
        (TokenStage::Inserting, TokenAnswer::Inserted) => (TokenStage::Counting, TokenStatement::Count),
        (TokenStage::Counting, TokenAnswer::Counted(n)) => if n > MAX_TOKENS_PER_USER {
            (TokenStage::FetchingOldest, TokenStatement::FetchOldest)
        } else {
            (TokenStage::Done, TokenStatement::Finish(token))
        },
        (TokenStage::FetchingOldest, TokenAnswer::OldestFound(t)) => (TokenStage::Deleting, TokenStatement::Delete(t)),
        (TokenStage::Deleting, TokenAnswer::Deleted) => (TokenStage::Done, TokenStatement::Finish(token)),
        _ => (TokenStage::Done, TokenStatement::Fail),
    }
}

/// How the user's tokens (oldest first) answer a statement, and what they
/// become: an insert adds the newest token, a count gives their number, the
/// oldest is the first, and a delete removes every row with that token.
pub open spec fn run_statement(store: Seq<Seq<char>>, statement: TokenStatement) -> (Seq<Seq<char>>, TokenAnswer) {
    match statement {
        TokenStatement::Insert(t) => (store.push(t), TokenAnswer::Inserted),
        TokenStatement::Count => (store, TokenAnswer::Counted(store.len() as int)),
        TokenStatement::FetchOldest => (store, TokenAnswer::OldestFound(store[0])),
        TokenStatement::Delete(t) => (without_token(store, t), TokenAnswer::Deleted),
        _ => (store, TokenAnswer::Deleted),
    }
}

/// Runs issuing `token` against a store for at most `fuel` statements: each
/// statement is answered by the store, and `spec_step` picks the next one,
/// until issuing finishes. Gives the store and the final statement.
pub open spec fn drive(
    stage: TokenStage,
    statement: TokenStatement,
    store: Seq<Seq<char>>,
    token: Seq<char>,
    fuel: nat,
) -> (Seq<Seq<char>>, TokenStatement)
    decreases fuel,
{
    match statement {
        TokenStatement::Finish(_) | TokenStatement::Fail => (store, statement),
        _ => if fuel == 0 {
            (store, statement)
        } else {
            let (next_store, answer) = run_statement(store, statement);
            let (next_stage, next_statement) = spec_step(stage, token, answer);
            drive(next_stage, next_statement, next_store, token, (fuel - 1) as nat)
        },
    }
}

impl TokenIssue {
    pub closed spec fn token(self) -> Seq<char> {
        self.token@
    }

    pub closed spec fn user_id(self) -> UserId {
        self.user_id
    }

    pub closed spec fn stage(self) -> TokenStage {
        self.stage
    }

    /// Starts issuing the token made of `bytes` (base64) for `user`: the first
    /// step stores it.
    pub fn start(user: &User, bytes: &Vec<u8>) -> (r: (TokenIssue, TokenAction))
        requires
            bytes@.len() == TOKEN_BYTES,
        ensures
            r.0.token() == base64_standard(bytes@),
            r.0.user_id() == user.id,
            r.0.stage() == TokenStage::Inserting,
            r.1 matches TokenAction::InsertToken(t) && t.token@ == base64_standard(bytes@) && t.user_id == user.id,
            action_statement(r.1) == TokenStatement::Insert(r.0.token()),
    {
        let token = base64_encode(bytes.as_slice());
        let action = TokenAction::InsertToken(Token { token: token.clone(), user_id: user.id });
        (TokenIssue { token, user_id: user.id, stage: TokenStage::Inserting }, action)
    }

    /// Advances on the database's answer to the last step.
    pub fn step(&mut self, event: TokenEvent) -> (action: TokenAction)
        requires
            answers(old(self).stage(), event),
        ensures
            final(self).token() == old(self).token(),
            final(self).user_id() == old(self).user_id(),
            event_answer(event) matches Some(answer) ==> (final(self).stage(), action_statement(action))
                == spec_step(old(self).stage(), old(self).token(), answer),
            match event {
                TokenEvent::Inserted(Err(f)) | TokenEvent::OldestFound(Err(f)) | TokenEvent::Deleted(Err(f)) =>
                    final(self).stage() == TokenStage::Done
                    && (action matches TokenAction::Finish(Err(e)) && e == AppError::spec_from_db(f)),
                TokenEvent::Inserted(Ok(())) =>
                    final(self).stage() == TokenStage::Counting
                    && (action matches TokenAction::CountTokens(id) && id == old(self).user_id()),
                TokenEvent::Counted(n) => if n > MAX_TOKENS_PER_USER {
                    final(self).stage() == TokenStage::FetchingOldest
                    && (action matches TokenAction::FetchOldestToken(id) && id == old(self).user_id())
                } else {
                    final(self).stage() == TokenStage::Done
                    && (action matches TokenAction::Finish(Ok(t)) && t@ == old(self).token())
                },
                TokenEvent::OldestFound(Ok(oldest)) =>
                    final(self).stage() == TokenStage::Deleting
                    && (action matches TokenAction::DeleteToken(t) && t@ == oldest@),
                TokenEvent::Deleted(Ok(())) =>
                    final(self).stage() == TokenStage::Done
                    && (action matches TokenAction::Finish(Ok(t)) && t@ == old(self).token()),
            },
    {
        match event {
            TokenEvent::Inserted(Err(f)) | TokenEvent::OldestFound(Err(f)) | TokenEvent::Deleted(Err(f)) => {
                self.stage = TokenStage::Done;
                TokenAction::Finish(Err(AppError::from_db(f)))
            },
            TokenEvent::Inserted(Ok(())) => {
                self.stage = TokenStage::Counting;
                TokenAction::CountTokens(self.user_id)
            },
            TokenEvent::Counted(n) => {
                if n > MAX_TOKENS_PER_USER {
                    self.stage = TokenStage::FetchingOldest;
                    TokenAction::FetchOldestToken(self.user_id)
                } else {
                    self.stage = TokenStage::Done;
                    TokenAction::Finish(Ok(self.token.clone()))
                }
            },
            TokenEvent::OldestFound(Ok(oldest)) => {
                self.stage = TokenStage::Deleting;
                TokenAction::DeleteToken(oldest)
            },
            TokenEvent::Deleted(Ok(())) => {
                self.stage = TokenStage::Done;
                TokenAction::Finish(Ok(self.token.clone()))
            },
        }
    }
}

/// Issues a session token for `user` from fresh random bytes: the first step
/// stores a token of 44 base64 characters that encode 32 bytes.
pub fn create_token(user: &User) -> (r: (TokenIssue, TokenAction))
    ensures
        exists|bytes: Seq<u8>| bytes.len() == TOKEN_BYTES && #[trigger] base64_standard(bytes) == r.0.token(),
        r.0.user_id() == user.id,
        r.0.stage() == TokenStage::Inserting,
        r.1 matches TokenAction::InsertToken(t) && t.token@ == r.0.token() && t.user_id == user.id,
{
    let bytes = random_bytes(TOKEN_BYTES);
    TokenIssue::start(user, &bytes)
}

/// A user never keeps more than `MAX_TOKENS_PER_USER` tokens: a user who had
/// at most that many before a new token was stored is left with at most that
/// many once the oldest is deleted.
pub proof fn lemma_tokens_stay_bounded(before: int)
    requires
        0 <= before <= MAX_TOKENS_PER_USER,
    ensures
        0 <= tokens_left(before + 1) <= MAX_TOKENS_PER_USER,
{
}

/// A user's tokens, in order, with every copy of `token` removed.
pub open spec fn without_token(tokens: Seq<Seq<char>>, token: Seq<char>) -> Seq<Seq<char>>
    decreases tokens.len(),
{
    if tokens.len() == 0 {
        tokens
    } else if tokens.last() == token {
        without_token(tokens.drop_last(), token)
    } else {
        without_token(tokens.drop_last(), token).push(tokens.last())
    }
}

/// The tokens a user holds, oldest first, once issuing `token` has run its
/// statements against them: the token is stored as the newest, the tokens are
/// counted, and when there are more than `MAX_TOKENS_PER_USER` the oldest is
/// looked up and every row with it is deleted: the statements `TokenIssue`
/// asks for on those answers (`lemma_issue_runs_rotation`).
pub open spec fn tokens_after_issue(before: Seq<Seq<char>>, token: Seq<char>) -> Seq<Seq<char>> {
    let stored = before.push(token);
    if stored.len() > MAX_TOKENS_PER_USER {
        without_token(stored, stored[0])
    } else {
        stored
    }
}

proof fn lemma_without_first(tokens: Seq<Seq<char>>)
    requires
        tokens.len() > 0,
        tokens.no_duplicates(),
    ensures
        without_token(tokens, tokens[0]) == tokens.drop_first(),
    decreases tokens.len(),
{
    if tokens.len() == 1 {
        assert(without_token(tokens.drop_last(), tokens[0]) == tokens.drop_last());
        assert(tokens.drop_first() =~= Seq::<Seq<char>>::empty());
    } else {
        let rest = tokens.drop_last();
        assert(tokens.last() != tokens[0]) by {
            assert(tokens.last() == tokens[tokens.len() - 1]);
        }
        assert(rest.no_duplicates()) by {
            assert forall|i: int, j: int| 0 <= i < rest.len() && 0 <= j < rest.len() && i != j implies rest[i] != rest[j] by {
                assert(rest[i] == tokens[i] && rest[j] == tokens[j]);
            }
        }
        lemma_without_first(rest);
        assert(rest[0] == tokens[0]);
        assert(rest.drop_first().push(tokens.last()) =~= tokens.drop_first());
    }
}

/// Running the statements `TokenIssue` asks for, from its first one and on
/// the answers a user's tokens give, finishes with the new token in at most
/// four statements, and leaves the tokens as `tokens_after_issue` says.
pub proof fn lemma_issue_runs_rotation(before: Seq<Seq<char>>, token: Seq<char>)
    ensures
        drive(TokenStage::Inserting, TokenStatement::Insert(token), before, token, 4)
            == (tokens_after_issue(before, token), TokenStatement::Finish(token)),
{
    let stored = before.push(token);
    let after = tokens_after_issue(before, token);
    let done = (after, TokenStatement::Finish(token));
    if stored.len() > MAX_TOKENS_PER_USER {
        let oldest = stored[0];
        assert(drive(TokenStage::Done, TokenStatement::Finish(token), after, token, 0) == done);
        assert(drive(TokenStage::Deleting, TokenStatement::Delete(oldest), stored, token, 1) == done);
        assert(drive(TokenStage::FetchingOldest, TokenStatement::FetchOldest, stored, token, 2) == done);
        assert(drive(TokenStage::Counting, TokenStatement::Count, stored, token, 3) == done);
    } else {
        assert(drive(TokenStage::Done, TokenStatement::Finish(token), stored, token, 2) == done);
        assert(drive(TokenStage::Counting, TokenStatement::Count, stored, token, 3) == done);
    }
    assert(drive(TokenStage::Inserting, TokenStatement::Insert(token), before, token, 4) == done);
}

/// Issuing a token stores it and keeps at most `MAX_TOKENS_PER_USER` tokens:
/// below the limit the new token is added, at the limit it replaces the
/// oldest; the new token is never the one deleted. Tokens are unique (they
/// are the table's key), and a fresh token is not among the stored ones.
pub proof fn lemma_token_rotation(before: Seq<Seq<char>>, token: Seq<char>)
    requires
        before.len() <= MAX_TOKENS_PER_USER,
        before.no_duplicates(),
        !before.contains(token),
    ensures
        tokens_after_issue(before, token) == if before.len() < MAX_TOKENS_PER_USER {
            before.push(token)
        } else {
            before.drop_first().push(token)
        },
        tokens_after_issue(before, token).len() <= MAX_TOKENS_PER_USER,
        tokens_after_issue(before, token).contains(token),
{
    let stored = before.push(token);
    assert(stored.no_duplicates()) by {
        assert forall|i: int, j: int| 0 <= i < stored.len() && 0 <= j < stored.len() && i != j implies stored[i] != stored[j] by {
            if i < before.len() && j < before.len() {
                assert(stored[i] == before[i] && stored[j] == before[j]);
            } else if i < before.len() {
                assert(stored[i] == before[i]);
                assert(before.contains(before[i]));
            } else {
                assert(stored[j] == before[j]);
                assert(before.contains(before[j]));
            }
        }
    }
    if stored.len() > MAX_TOKENS_PER_USER {
        lemma_without_first(stored);
        assert(stored.drop_first() =~= before.drop_first().push(token));
        assert(before.drop_first().push(token)[before.len() - 1] == token);
    } else {
        assert(stored[before.len() as int] == token);
    }
}

/// A token made of `TOKEN_BYTES` bytes is 44 characters long.
pub proof fn lemma_token_length(bytes: Seq<u8>)
    requires
        bytes.len() == TOKEN_BYTES,
    ensures
        base64_standard(bytes).len() == 44,
{
    lemma_base64_length(bytes);
}

/// Standard base64 turns every started group of three bytes into four
/// characters.
pub proof fn lemma_base64_length(bytes: Seq<u8>)
    ensures
        base64_standard(bytes).len() == 4 * ((bytes.len() + 2) / 3),
    decreases bytes.len(),
{
    if bytes.len() >= 3 {
        lemma_base64_length(bytes.subrange(3, bytes.len() as int));
    }
}

/// Whether a character may appear in standard base64 text.
pub open spec fn is_base64_text_char(c: char) -> bool {
    ('A' <= c && c <= 'Z') || ('a' <= c && c <= 'z') || ('0' <= c && c <= '9') || c == '+' || c == '/' || c == '='
}

proof fn lemma_base64_char_in_alphabet(v: int)
    requires
        0 <= v < 64,
    ensures
        is_base64_text_char(base64_char(v)),
{
}

proof fn lemma_base64_text(bytes: Seq<u8>)
    ensures
        forall|i: int| 0 <= i < base64_standard(bytes).len() ==> is_base64_text_char(#[trigger] base64_standard(bytes)[i]),
    decreases bytes.len(),
{
    if bytes.len() == 0 {
    } else if bytes.len() == 1 {
        lemma_base64_char_in_alphabet((bytes[0] / 4) as int);
        lemma_base64_char_in_alphabet((bytes[0] % 4) * 16);
    } else if bytes.len() == 2 {
        lemma_base64_char_in_alphabet((bytes[0] / 4) as int);
        lemma_base64_char_in_alphabet((bytes[0] % 4) * 16 + bytes[1] / 16);
        lemma_base64_char_in_alphabet((bytes[1] % 16) * 4);
    } else {
        let rest = bytes.subrange(3, bytes.len() as int);
        lemma_base64_text(rest);
        lemma_base64_char_in_alphabet((bytes[0] / 4) as int);
        lemma_base64_char_in_alphabet((bytes[0] % 4) * 16 + bytes[1] / 16);
        lemma_base64_char_in_alphabet((bytes[1] % 16) * 4 + bytes[2] / 64);
        lemma_base64_char_in_alphabet((bytes[2] % 64) as int);
        let head = seq![
            base64_char((bytes[0] / 4) as int),
            base64_char((bytes[0] % 4) * 16 + bytes[1] / 16),
            base64_char((bytes[1] % 16) * 4 + bytes[2] / 64),
            base64_char((bytes[2] % 64) as int),
        ];
        assert(base64_standard(bytes) == head + base64_standard(rest));
        assert forall|i: int| 0 <= i < base64_standard(bytes).len() implies is_base64_text_char(
            #[trigger] base64_standard(bytes)[i],
        ) by {
            if i >= 4 {
                assert(base64_standard(bytes)[i] == base64_standard(rest)[i - 4]);
            }
        }
    }
}

/// The bytes of ASCII text, one per character.
pub open spec fn ascii_bytes(text: Seq<char>) -> Seq<u8> {
    Seq::new(text.len(), |i: int| text[i] as u8)
}

/// A token handed out at sign-in and sent back as the `authorization` header
/// is read back as the very same token.
pub proof fn lemma_issued_token_reads_back(bytes: Seq<u8>)
    ensures
        spec_header_token(Some(ascii_bytes(base64_standard(bytes)))) == Ok::<Seq<char>, AppError>(base64_standard(bytes)),
{
    let t = base64_standard(bytes);
    let header = ascii_bytes(t);
    lemma_base64_text(bytes);
    assert forall|i: int| 0 <= i < header.len() implies is_visible_ascii(#[trigger] header[i]) by {
        assert(is_base64_text_char(t[i]));
    }
    assert forall|i: int| 0 <= i < t.len() implies ascii_text(header)[i] == t[i] by {
        assert(is_base64_text_char(t[i]));
    }
    assert(ascii_text(header) =~= t);
}

} // verus!
