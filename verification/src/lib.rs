//! A small chat messenger: the command line a client types, the requests
//! that travel to the server, and the room that routes messages between
//! members.

pub mod chat;
pub mod client;
pub mod method;
pub mod request;
pub mod room;
pub mod tcp;
pub mod text;
pub mod udp;
pub mod utils;

use vstd::prelude::*;

use crate::text::{
    all_space, lemma_trim_all_space, lemma_trim_ignores_leading_space, lemma_trim_shape,
    lemma_trim_spaces_before, lemma_word_shape, lemma_word_then, no_space, same_text, space_end,
    spec_trim_start, split_word, starts_with_space, starts_without_space, trim_start, word_end,
};

verus! {

/// A request that a command-line client sends to the server.
#[derive(Debug)]
pub enum ClientRequest {
    /// List the groups.
    Get,
    /// Join the named group.
    Join { group_name: String },
    /// Send a message.
    Send { message: String },
}

/// The content of a [`ClientRequest`], with its texts as character sequences.
pub enum ClientRequestView {
    Get,
    Join { group_name: Seq<char> },
    Send { message: Seq<char> },
}

impl View for ClientRequest {
    type V = ClientRequestView;

    open spec fn view(&self) -> ClientRequestView {
        match self {
            ClientRequest::Get => ClientRequestView::Get,
            ClientRequest::Join { group_name } => ClientRequestView::Join { group_name: group_name@ },
            ClientRequest::Send { message } => ClientRequestView::Send { message: message@ },
        }
    }
}

/// The first word of `s` after its leading white space, and what follows
/// that word; `None` when `s` holds nothing but white space.
pub open spec fn spec_next_token(s: Seq<char>) -> Option<(Seq<char>, Seq<char>)> {
    let t = spec_trim_start(s);
    if t.len() == 0 {
        None
    } else {
        Some((t.take(word_end(t, 0)), t.skip(word_end(t, 0))))
    }
}

/// The command word that sends a message.
pub open spec fn send_word() -> Seq<char> {
    seq!['s', 'e', 'n', 'd']
}

/// The command word that joins a group.
pub open spec fn join_word() -> Seq<char> {
    seq!['j', 'o', 'i', 'n']
}

/// The command word that lists the groups.
pub open spec fn get_word() -> Seq<char> {
    seq!['g', 'e', 't']
}

/// What a typed command line asks for.
///
/// - `send GROUP MESSAGE...` sends the rest of the line after the group,
///   without its leading white space (the group word itself is not kept);
/// - `join GROUP` joins the group, and nothing but white space may follow;
/// - `get` lists the groups, whatever follows;
/// - anything else, or a command missing its group, is no request.
pub open spec fn command_of(line: Seq<char>) -> Option<ClientRequestView> {
    match spec_next_token(line) {
        None => None,
        Some((command, rest)) => {
            if command == send_word() {
                match spec_next_token(rest) {
                    None => None,
                    Some((_group, tail)) => Some(
                        ClientRequestView::Send { message: spec_trim_start(tail) },
                    ),
                }
            } else if command == join_word() {
                match spec_next_token(rest) {
                    None => None,
                    Some((group, tail)) => if spec_trim_start(tail).len() == 0 {
                        Some(ClientRequestView::Join { group_name: group })
                    } else {
                        None
                    },
                }
            } else if command == get_word() {
                Some(ClientRequestView::Get)
            } else {
                None
            }
        },
    }
}

/// Parses a command line into the request it asks for (see [`command_of`]).
pub fn parse_command(line: &str) -> (res: Option<ClientRequest>)
    ensures
        res is Some <==> command_of(line@) is Some,
        res matches Some(r) ==> command_of(line@) == Some(r@),
{
    proof {
        reveal_strlit("send");
        reveal_strlit("join");
        reveal_strlit("get");
        assert("send"@ =~= send_word());
        assert("join"@ =~= join_word());
        assert("get"@ =~= get_word());
    }
    let (command, rest) = match get_next_token(line) {
        Some(parts) => parts,
        None => return None,
    };
    if same_text(command, "send") {
        let (_group, rest) = match get_next_token(rest) {
            Some(parts) => parts,
            None => return None,
        };
        let message = trim_start(rest).to_owned();
        Some(ClientRequest::Send { message })
    } else if same_text(command, "join") {
        let (group, rest) = match get_next_token(rest) {
            Some(parts) => parts,
            None => return None,
        };
        if !trim_start(rest).is_empty() {
            return None;
        }
        Some(ClientRequest::Join { group_name: group.to_owned() })
    } else if same_text(command, "get") {
        Some(ClientRequest::Get)
    } else {
        None
    }
}

/// Skips the leading white space of `input` and splits off its first word:
/// `Some((word, rest))`, where `rest` is empty or starts with white space;
/// `None` when `input` holds nothing but white space.
pub fn get_next_token(input: &str) -> (res: Option<(&str, &str)>)
    ensures
        res is Some <==> spec_next_token(input@) is Some,
        res matches Some(parts) ==> spec_next_token(input@) == Some((parts.0@, parts.1@)),
{
    let input = trim_start(input);
    if input.is_empty() {
        return None;
    }
    Some(split_word(input))
}

/// A token is a non-empty word without white space; what follows it is
/// empty or starts with white space; together they are the input without
/// its leading white space. There is no token exactly when the input is
/// all white space.
pub proof fn law_token_shape(s: Seq<char>)
    ensures
        spec_next_token(s) is None <==> all_space(s),
        spec_next_token(s) matches Some((word, rest)) ==> {
            &&& word.len() > 0
            &&& no_space(word)
            &&& starts_with_space(rest)
            &&& word + rest == spec_trim_start(s)
        },
{
    lemma_trim_shape(s);
    let t = spec_trim_start(s);
    lemma_word_shape(t);
    if t.len() == 0 {
        assert(s =~= s.take(space_end(s, 0)));
    } else {
        assert(t.take(word_end(t, 0)) + t.skip(word_end(t, 0)) =~= t);
        assert(!all_space(s)) by {
            assert(s[space_end(s, 0)] == t[0]);
        }
    }
}

/// White space, then a word, then text that is empty or starts with
/// white space: the token is that word and the rest is that text.
pub proof fn law_token_of(lead: Seq<char>, word: Seq<char>, rest: Seq<char>)
    requires
        all_space(lead),
        word.len() > 0,
        no_space(word),
        starts_with_space(rest),
    ensures
        spec_next_token(lead + word + rest) == Some((word, rest)),
{
    assert(lead + word + rest =~= lead + (word + rest));
    lemma_trim_spaces_before(lead, word + rest);
    lemma_word_then(word, rest);
}

/// White space before a command line does not change what it asks for.
pub proof fn law_leading_space_ignored(sep: Seq<char>, line: Seq<char>)
    requires
        all_space(sep),
    ensures
        command_of(sep + line) == command_of(line),
{
    lemma_trim_ignores_leading_space(sep, line);
}

proof fn lemma_command_words()
    ensures
        no_space(send_word()),
        no_space(join_word()),
        no_space(get_word()),
{
}

/// `join GROUP`, with any white space around and between the words, joins
/// that group.
pub proof fn law_join_command(lead: Seq<char>, sep: Seq<char>, group: Seq<char>, trail: Seq<char>)
    requires
        all_space(lead),
        all_space(sep),
        sep.len() > 0,
        group.len() > 0,
        no_space(group),
        all_space(trail),
    ensures
        command_of(lead + join_word() + sep + group + trail) == Some(
            ClientRequestView::Join { group_name: group },
        ),
{
    lemma_command_words();
    let rest = sep + group + trail;
    assert(lead + join_word() + sep + group + trail =~= lead + join_word() + rest);
    law_token_of(lead, join_word(), rest);
    law_token_of(sep, group, trail);
    lemma_trim_all_space(trail);
}

/// `send GROUP MESSAGE`, with any white space around and between the
/// words, sends the message: everything after the white space that follows
/// the group.
pub proof fn law_send_command(
    lead: Seq<char>,
    sep: Seq<char>,
    group: Seq<char>,
    gap: Seq<char>,
    message: Seq<char>,
)
    requires
        all_space(lead),
        all_space(sep),
        sep.len() > 0,
        group.len() > 0,
        no_space(group),
        all_space(gap),
        gap.len() > 0,
        starts_without_space(message),
    ensures
        command_of(lead + send_word() + sep + group + gap + message) == Some(
            ClientRequestView::Send { message },
        ),
{
    lemma_command_words();
    let tail = gap + message;
    let rest = sep + group + tail;
    assert(lead + send_word() + sep + group + gap + message =~= lead + send_word() + rest);
    law_token_of(lead, send_word(), rest);
    law_token_of(sep, group, tail);
    lemma_trim_spaces_before(gap, message);
}

/// `get`, whatever follows it after white space, lists the groups.
pub proof fn law_get_command(lead: Seq<char>, rest: Seq<char>)
    requires
        all_space(lead),
        starts_with_space(rest),
    ensures
        command_of(lead + get_word() + rest) == Some(ClientRequestView::Get),
{
    lemma_command_words();
    law_token_of(lead, get_word(), rest);
}

/// A group that a command line joins is a single non-empty word.
pub proof fn law_joined_group_is_a_word(line: Seq<char>, group: Seq<char>)
    requires
        command_of(line) == Some(ClientRequestView::Join { group_name: group }),
    ensures
        group.len() > 0,
        no_space(group),
{
    law_token_shape(line);
    let rest = spec_next_token(line)->Some_0.1;
    law_token_shape(rest);
}

} // verus!
