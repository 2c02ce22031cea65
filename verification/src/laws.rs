use vstd::prelude::*;

use crate::configuration::{
    environment_name, parse_environment, postgres_url, select_environment, Environment,
};
use crate::domain::{
    count_char, details_parse, email_parse, is_white_space, name_parse, utf8_len,
};
use crate::routes::{
    chain_text, confirmation_html, confirmation_plain, error_causes, error_message, error_status,
    subscribe_accepts, subscribe_next, welcome_subject, SubscribeActionView,
    SubscribeErrorView, SubscribeEventView, SubscribeStateView,
};
use crate::text::{decimal, digit_char};
use crate::token::{hex_digits, uuid_hyphenated};

verus! {

/// Every environment is read back from its own name.
pub proof fn law_environment_name_round_trip(e: Environment)
    ensures
        parse_environment(environment_name(e)) == Ok::<Environment, Seq<char>>(e),
{
    reveal_strlit("production");
    reveal_strlit("development");
    assert("production"@.len() != "development"@.len());
}

/// A text read as an environment is that environment's name.
pub proof fn law_environment_parsed_from_its_name(s: Seq<char>)
    ensures
        parse_environment(s) matches Ok(e) ==> environment_name(e) == s,
{
}

/// How many steps at most remain before a request is answered.
pub open spec fn steps_left(s: SubscribeStateView) -> nat {
    match s {
        SubscribeStateView::AwaitingRequest => 3,
        SubscribeStateView::AwaitingInsert(_, _) => 2,
        SubscribeStateView::AwaitingEmail => 1,
        SubscribeStateView::Finished => 0,
    }
}

/// Every step moves the handling of a request forward, and answering it ends it: a request
/// is answered after at most three steps.
pub proof fn law_subscribe_step_progresses(s: SubscribeStateView, e: SubscribeEventView)
    requires
        subscribe_accepts(s, e),
    ensures
        steps_left(subscribe_next(s, e).0) < steps_left(s),
        subscribe_next(s, e).1 is Respond <==> subscribe_next(s, e).0 is Finished,
{
}

/// A request that breaks a rule is answered at once with 400 and the broken rule's
/// message; nothing is saved and no email is sent.
pub proof fn law_refused_request_is_never_saved(name: Seq<char>, email: Seq<char>)
    requires
        details_parse(name, email) is Err,
    ensures
        subscribe_next(SubscribeStateView::AwaitingRequest, SubscribeEventView::Request(name, email))
            == (SubscribeStateView::Finished, SubscribeActionView::Respond(
            Err(SubscribeErrorView::InputValidationError(details_parse(name, email)->Err_0)),
        )),
        error_status(SubscribeErrorView::InputValidationError(details_parse(name, email)->Err_0))
            == 400,
{
}

/// A valid request is saved first, with the name and the email exactly as given.
pub proof fn law_valid_request_is_saved_as_given(name: Seq<char>, email: Seq<char>)
    requires
        details_parse(name, email) is Ok,
    ensures
        subscribe_next(SubscribeStateView::AwaitingRequest, SubscribeEventView::Request(name, email))
            == (SubscribeStateView::AwaitingInsert(name, email), SubscribeActionView::SaveSubscriber(
            name,
            email,
        )),
{
}

/// A confirmation email is sent only right after the subscriber was saved, to the email
/// that was saved, with the token the save gave back.
pub proof fn law_confirmation_follows_save(s: SubscribeStateView, e: SubscribeEventView)
    requires
        subscribe_accepts(s, e),
        subscribe_next(s, e).1 is SendConfirmation,
    ensures
        s is AwaitingInsert,
        e is Inserted,
        subscribe_next(s, e).1 == SubscribeActionView::SendConfirmation(
            s->AwaitingInsert_1,
            welcome_subject(s->AwaitingInsert_0),
            confirmation_html(uuid_hyphenated(e->Inserted_0)),
            confirmation_plain(),
        ),
{
}

/// A request is answered with success only once its confirmation email went out.
pub proof fn law_success_follows_confirmation(s: SubscribeStateView, e: SubscribeEventView)
    requires
        subscribe_accepts(s, e),
        subscribe_next(s, e).1 == SubscribeActionView::Respond(Ok(())),
    ensures
        s is AwaitingEmail,
        e is EmailSent,
{
}

/// The event that reports how saving the subscriber went.
pub open spec fn insert_event(insert: Result<u128, Seq<Seq<char>>>) -> SubscribeEventView {
    match insert {
        Ok(token) => SubscribeEventView::Inserted(token),
        Err(causes) => SubscribeEventView::InsertFailed(causes),
    }
}

/// The event that reports how sending the confirmation email went.
pub open spec fn email_event(send: Result<(), Seq<Seq<char>>>) -> SubscribeEventView {
    match send {
        Ok(()) => SubscribeEventView::EmailSent,
        Err(causes) => SubscribeEventView::EmailFailed(causes),
    }
}

/// The answer to a subscription request, when saving goes as `insert` says and sending
/// goes as `send` says: the steps run until one answers.
pub open spec fn subscribe_run(
    name: Seq<char>,
    email: Seq<char>,
    insert: Result<u128, Seq<Seq<char>>>,
    send: Result<(), Seq<Seq<char>>>,
) -> SubscribeActionView {
    let first = subscribe_next(
        SubscribeStateView::AwaitingRequest,
        SubscribeEventView::Request(name, email),
    );
    if first.1 is Respond {
        first.1
    } else {
        let second = subscribe_next(first.0, insert_event(insert));
        if second.1 is Respond {
            second.1
        } else {
            subscribe_next(second.0, email_event(send)).1
        }
    }
}

/// A subscription request succeeds exactly when it is valid, the subscriber is saved and the
/// confirmation email goes out; it is refused with 400 exactly when it breaks a rule, and
/// fails with 500, under the context of the failed step, otherwise.
pub proof fn law_subscribe_outcome(
    name: Seq<char>,
    email: Seq<char>,
    insert: Result<u128, Seq<Seq<char>>>,
    send: Result<(), Seq<Seq<char>>>,
)
    ensures
        subscribe_run(name, email, insert, send) is Respond,
        (subscribe_run(name, email, insert, send) == SubscribeActionView::Respond(Ok(())))
            <==> (details_parse(name, email) is Ok && insert is Ok && send is Ok),
        details_parse(name, email) is Err ==> subscribe_run(name, email, insert, send)
            == SubscribeActionView::Respond(
            Err(SubscribeErrorView::InputValidationError(details_parse(name, email)->Err_0)),
        ),
        details_parse(name, email) is Ok && insert is Err ==> subscribe_run(
            name,
            email,
            insert,
            send,
        ) == SubscribeActionView::Respond(
            Err(SubscribeErrorView::UnexpectedError("Failed to insert subscriber"@, insert->Err_0)),
        ),
        details_parse(name, email) is Ok && insert is Ok && send is Err ==> subscribe_run(
            name,
            email,
            insert,
            send,
        ) == SubscribeActionView::Respond(
            Err(SubscribeErrorView::UnexpectedError("Failed to send confirmation email"@, send->Err_0)),
        ),
        subscribe_run(name, email, insert, send) matches SubscribeActionView::Respond(Err(err))
            ==> (error_status(err) == 400 <==> details_parse(name, email) is Err),
{
}

/// For a valid request that is saved with `token`, the confirmation email goes to the
/// email that was given, greets the name that was given, and holds the token.
pub proof fn law_confirmation_reaches_subscriber(name: Seq<char>, email: Seq<char>, token: u128)
    requires
        details_parse(name, email) is Ok,
    ensures
        ({
            let first = subscribe_next(
                SubscribeStateView::AwaitingRequest,
                SubscribeEventView::Request(name, email),
            );
            subscribe_next(first.0, SubscribeEventView::Inserted(token)).1
                == SubscribeActionView::SendConfirmation(
                email,
                welcome_subject(name),
                confirmation_html(uuid_hyphenated(token)),
                confirmation_plain(),
            )
        }),
{
}

/// A confirmation token is written with 36 characters: 32 hexadecimal digits and 4 hyphens.
pub proof fn law_token_text_length(v: u128)
    ensures
        hex_digits(v).len() == 32,
        uuid_hyphenated(v).len() == 36,
{
}

/// The subject of the confirmation email holds the whole name, as given, between
/// "Welcome " and ", we need just one more thing".
pub proof fn law_welcome_subject_holds_whole_name(name: Seq<char>)
    ensures
        welcome_subject(name) == "Welcome "@ + name + ", we need just one more thing"@,
        welcome_subject(name).len() == name.len() + 37,
        welcome_subject(name).subrange(8, 8 + name.len() as int) == name,
{
    reveal_strlit("Welcome ");
    reveal_strlit(", we need just one more thing");
    let w = welcome_subject(name);
    assert(w.subrange(8, 8 + name.len() as int) =~= name);
}

/// For a valid request saved with `token`, the confirmation email goes to the email given,
/// its subject names the whole name given, and its body is the confirmation command with the
/// token written out.
pub proof fn law_confirmation_email_contents(name: Seq<char>, email: Seq<char>, token: u128)
    requires
        details_parse(name, email) is Ok,
    ensures
        ({
            let first = subscribe_next(
                SubscribeStateView::AwaitingRequest,
                SubscribeEventView::Request(name, email),
            );
            subscribe_next(first.0, SubscribeEventView::Inserted(token)).1
                == SubscribeActionView::SendConfirmation(
                email,
                "Welcome "@ + name + ", we need just one more thing"@,
                "curl localhost:8000/confirm/"@ + uuid_hyphenated(token),
                "Confirm yourself maan"@,
            )
        }),
{
}

/// Counting a character in two pieces of text adds the counts of each piece.
pub proof fn law_count_char_adds(a: Seq<char>, b: Seq<char>, c: char)
    ensures
        count_char(a + b, c) == count_char(a, c) + count_char(b, c),
    decreases b.len(),
{
    if b.len() == 0 {
        assert(a + b =~= a);
    } else {
        law_count_char_adds(a, b.drop_last(), c);
        assert((a + b).drop_last() =~= a + b.drop_last());
    }
}

/// A single character is counted once when it is the one counted, else not at all.
pub proof fn law_count_char_single(x: char, c: char)
    ensures
        count_char(seq![x], c) == if x == c {
            1nat
        } else {
            0nat
        },
{
    assert(seq![x].drop_last() =~= Seq::<char>::empty());
    assert(count_char(Seq::<char>::empty(), c) == 0);
    assert(seq![x].last() == x);
}

/// Every text of at most 256 bytes that holds exactly one `@` is an email, kept unchanged,
/// whatever its other characters; every other text is refused.
pub proof fn law_email_accepts_any_single_at(s: Seq<char>)
    ensures
        utf8_len(s) <= 256 && count_char(s, '@') == 1 ==> email_parse(s) == Ok::<
            Seq<char>,
            Seq<char>,
        >(s),
        email_parse(s) is Ok <==> (utf8_len(s) <= 256 && count_char(s, '@') == 1),
        email_parse(s) matches Ok(e) ==> e == s,
{
}

/// No printable ASCII character other than the space is white space; the space, tab, line
/// feed and carriage return are.
pub proof fn law_white_space_characters(c: char)
    ensures
        0x21 <= (c as u32) <= 0x7e ==> !is_white_space(c),
        is_white_space(' '),
        is_white_space('\t'),
        is_white_space('\n'),
        is_white_space('\r'),
{
}

/// Every text of at most 256 bytes that holds a character other than white space is a
/// name, kept unchanged; every other text is refused.
pub proof fn law_name_accepts_any_non_blank(s: Seq<char>)
    ensures
        (utf8_len(s) <= 256 && exists|i: int| 0 <= i < s.len() && !is_white_space(#[trigger] s[i]))
            ==> name_parse(s) == Ok::<Seq<char>, Seq<char>>(s),
        name_parse(s) is Ok <==> (utf8_len(s) <= 256 && exists|i: int|
            0 <= i < s.len() && !is_white_space(#[trigger] s[i])),
        name_parse(s) matches Ok(n) ==> n == s,
{
}

/// A request is accepted exactly when its name and its email are; a bad name is reported
/// before a bad email.
pub proof fn law_details_accept_both_fields(name: Seq<char>, email: Seq<char>)
    ensures
        details_parse(name, email) is Ok <==> (name_parse(name) is Ok && email_parse(email) is Ok),
        details_parse(name, email) matches Ok(d) ==> d == (name, email),
        name_parse(name) matches Err(m) ==> details_parse(name, email) == Err::<
            (Seq<char>, Seq<char>),
            Seq<char>,
        >(m),
        name_parse(name) is Ok ==> (email_parse(email) matches Err(m) ==> details_parse(name, email)
            == Err::<(Seq<char>, Seq<char>), Seq<char>>(m)),
{
}

/// The connection URL holds each setting in full: user, password, host, port and database,
/// and the password can be read back between the user's `:` and the `@`.
pub proof fn law_connection_url_holds_password(
    username: Seq<char>,
    password: Seq<char>,
    host: Seq<char>,
    port: u16,
    database_name: Seq<char>,
)
    ensures
        postgres_url(username, password, host, port, database_name) == "postgres://"@ + username
            + ":"@ + password + "@"@ + host + ":"@ + decimal(port as nat) + "/"@ + database_name,
        postgres_url(username, password, host, port, database_name).subrange(
            12 + username.len() as int,
            12 + username.len() + password.len() as int,
        ) == password,
{
    reveal_strlit("postgres://");
    reveal_strlit(":");
    let u = postgres_url(username, password, host, port, database_name);
    assert(u.subrange(12 + username.len() as int, 12 + username.len() + password.len() as int) =~= password);
}

/// When `APP_ENVIRONMENT` is set, the environment chosen is the one it names; when unset,
/// development.
pub proof fn law_selected_environment_is_the_named_one(e: Environment, s: Seq<char>)
    ensures
        select_environment(Some(environment_name(e))) == Ok::<Environment, Seq<char>>(e),
        select_environment(Some(s)) == parse_environment(s),
        select_environment(None) == Ok::<Environment, Seq<char>>(Environment::Development),
        select_environment(Some(s)) matches Ok(f) ==> environment_name(f) == s,
{
    law_environment_name_round_trip(e);
}

/// The value that decimal digits write.
pub open spec fn digits_value(s: Seq<char>) -> int
    decreases s.len(),
{
    if s.len() == 0 {
        0
    } else {
        digits_value(s.drop_last()) * 10 + (s.last() as int - '0' as int)
    }
}

/// A number written in decimal is read back as the same number, with digits only, and with
/// no leading zero.
pub proof fn law_decimal_reads_back(n: nat)
    ensures
        digits_value(decimal(n)) == n,
        forall|i: int| 0 <= i < decimal(n).len() ==> '0' <= #[trigger] decimal(n)[i] <= '9',
        decimal(n).len() >= 1,
        n > 0 ==> decimal(n)[0] != '0',
        decimal(n).len() == 1 || decimal(n)[0] != '0',
    decreases n,
{
    assert(digit_char(n % 10) as int == '0' as int + n % 10);
    assert(digits_value(Seq::<char>::empty()) == 0);
    if n < 10 {
        assert(digit_char(n) as int == '0' as int + n);
        assert(decimal(n).drop_last() =~= Seq::<char>::empty());
    } else {
        law_decimal_reads_back(n / 10);
        let d = decimal(n);
        assert(d.drop_last() =~= decimal(n / 10));
        assert(d.last() == digit_char(n % 10));
        assert(n == (n / 10) * 10 + n % 10) by (nonlinear_arith);
        assert(digits_value(d) == digits_value(decimal(n / 10)) * 10 + (n % 10));
        assert(d[0] == decimal(n / 10)[0]);
    }
}

/// The report of an error lists its message, an empty line, then one line per cause in order.
pub proof fn law_chain_text_lists_causes(top: Seq<char>, causes: Seq<Seq<char>>, c: Seq<char>)
    ensures
        chain_text(top, Seq::empty()) == top + "\n\n"@,
        chain_text(top, causes.push(c)) == chain_text(top, causes) + "Caused by:\n\t"@ + c + "\n"@,
{
    assert(Seq::<Seq<char>>::empty().len() == 0);
    assert(causes.push(c).drop_last() =~= causes);
}

/// A refused request is answered with 400, a failed step with 500.
pub proof fn law_error_status(e: SubscribeErrorView)
    ensures
        error_status(e) == 400 <==> e is InputValidationError,
        error_status(e) == 500 <==> e is UnexpectedError,
{
}

/// The messages of a refused name: "Name too long" past 256 bytes, else "Name is empty"
/// for a text of white space only.
pub proof fn law_name_refusal_messages(s: Seq<char>)
    ensures
        utf8_len(s) > 256 ==> name_parse(s) == Err::<Seq<char>, Seq<char>>("Name too long"@),
        utf8_len(s) <= 256 && (forall|i: int| 0 <= i < s.len() ==> is_white_space(#[trigger] s[i]))
            ==> name_parse(s) == Err::<Seq<char>, Seq<char>>("Name is empty"@),
{
}

/// The messages of a refused email: "Email too long" past 256 bytes, else
/// "More than one @ symbol" when it does not hold exactly one `@`.
pub proof fn law_email_refusal_messages(s: Seq<char>)
    ensures
        utf8_len(s) > 256 ==> email_parse(s) == Err::<Seq<char>, Seq<char>>("Email too long"@),
        utf8_len(s) <= 256 && count_char(s, '@') != 1 ==> email_parse(s) == Err::<
            Seq<char>,
            Seq<char>,
        >("More than one @ symbol"@),
{
}

/// A text that names no environment is refused with a message that quotes it.
pub proof fn law_environment_refusal_quotes_text(s: Seq<char>)
    ensures
        s != "production"@ && s != "development"@ ==> parse_environment(s) == Err::<
            Environment,
            Seq<char>,
        >("Failed to parse application env(from: "@ + s + ") - falling back to development"@),
        parse_environment(s) is Ok <==> (s == "production"@ || s == "development"@),
{
}

/// An error displays the broken rule, or the context of the failed step, and lists causes
/// only for a failed step.
pub proof fn law_error_message(e: SubscribeErrorView)
    ensures
        e matches SubscribeErrorView::InputValidationError(m) ==> error_message(e) == m
            && error_causes(e).len() == 0,
        e matches SubscribeErrorView::UnexpectedError(context, causes) ==> error_message(e)
            == context && error_causes(e) == causes,
{
}

} // verus!
