//! The interactive chat client: a user answers prompts, and each answer
//! moves the dialog on and may produce a [`Request`] to send.

use vstd::prelude::*;
use vstd::string::StringExecFns;

use crate::method::{lemma_codes_differ, method_of_code, Method};
use crate::request::{Request, RequestView};
use crate::text::same_text;

verus! {

/// Whether an answer to a yes/no prompt is "yes", which the user types as `1`.
pub open spec fn says_yes(answer: Result<Seq<char>, Seq<char>>) -> bool {
    answer matches Ok(a) && a == seq!['1']
}

/// The view of an answer as read from the terminal.
pub open spec fn answer_view(answer: &Result<String, String>) -> Result<Seq<char>, Seq<char>> {
    match answer {
        Ok(a) => Ok(a@),
        Err(e) => Err(e@),
    }
}

/// Whether `answer` is a "yes" (`1`) to a yes/no prompt.
pub fn confirms(answer: &Result<String, String>) -> (yes: bool)
    ensures
        yes == says_yes(answer_view(answer)),
        yes == (answer matches Ok(a) && a@ == seq!['1']),
{
    proof {
        reveal_strlit("1");
        assert("1"@ =~= seq!['1']);
    }
    match answer {
        Ok(a) => same_text(a.as_str(), "1"),
        Err(_) => false,
    }
}

/// A chat user: its name, and whether it has joined the room.
#[derive(Debug)]
pub struct User {
    name: String,
    joined: bool,
}

/// The content of a [`User`].
pub struct UserView {
    pub name: Seq<char>,
    pub joined: bool,
}

impl View for User {
    type V = UserView;

    closed spec fn view(&self) -> UserView {
        UserView { name: self.name@, joined: self.joined }
    }
}

/// The request by which `name` joins the room.
pub open spec fn join_request(name: Seq<char>) -> RequestView {
    RequestView { method: seq!['1'], from: name, to: Seq::empty(), text: Seq::empty() }
}

/// The request by which `name` sends `text` to the room.
pub open spec fn message_request(name: Seq<char>, text: Seq<char>) -> RequestView {
    RequestView { method: seq!['2'], from: name, to: Seq::empty(), text }
}

impl User {
    /// A user with the given name that has not joined yet.
    pub fn new(name: String) -> (u: User)
        ensures
            u@ == (UserView { name: name@, joined: false }),
    {
        User { name, joined: false }
    }

    /// Whether the user has joined the room.
    pub fn is_joined(&self) -> (b: bool)
        ensures
            b == self@.joined,
    {
        self.joined
    }

    /// The user's answer to "do you enter the room?": on "yes" the user
    /// joins and the join request is returned; otherwise nothing changes.
    pub fn join(&mut self, answer: Result<String, String>) -> (req: Option<Request>)
        ensures
            req is Some <==> (answer matches Ok(a) && a@ == seq!['1']),
            final(self)@.joined == (old(self)@.joined || (answer matches Ok(a) && a@ == seq!['1'])),
            says_yes(answer_view(&answer)) ==> {
                &&& final(self)@ == (UserView { name: old(self)@.name, joined: true })
                &&& req matches Some(r) && r@ == join_request(old(self)@.name)
            },
            !says_yes(answer_view(&answer)) ==> final(self)@ == old(self)@ && req is None,
    {
        if confirms(&answer) {
            self.joined = true;
            proof {
                reveal_strlit("1");
                reveal_strlit("");
                assert("1"@ =~= seq!['1']);
                assert(""@ =~= Seq::<char>::empty());
            }
            Some(
                Request::new(
                    String::from_str("1"),
                    self.name.clone(),
                    String::from_str(""),
                    String::from_str(""),
                ),
            )
        } else {
            None
        }
    }

    /// The user's answer to "write message": the message request carrying
    /// the answer, or nothing when the answer could not be read.
    pub fn enter_messege(&self, answer: Result<String, String>) -> (req: Option<Request>)
        ensures
            answer is Ok <==> req is Some,
            req matches Some(r) ==> r@ == message_request(self@.name, answer_view(&answer)->Ok_0),
    {
        proof {
            reveal_strlit("2");
            reveal_strlit("");
            assert("2"@ =~= seq!['2']);
            assert(""@ =~= Seq::<char>::empty());
        }
        match answer {
            Ok(text) => Some(
                Request::new(String::from_str("2"), self.name.clone(), String::from_str(""), text),
            ),
            Err(_) => None,
        }
    }
}

/// Where the dialog stands: the prompt the user answers next, or the end.
#[derive(Debug, Clone, Copy, PartialEq, Eq, Structural)]
pub enum Stage {
    /// "Do you enter the room?"
    AskJoin,
    /// "Send a message to your room?"
    AskSend,
    /// "Write a message:"
    AskMessage,
    /// "Leave your room?"
    AskLeave,
    /// The dialog is over.
    Done,
}

/// The first prompt of a round: joining, unless the user already has.
pub open spec fn round_start(joined: bool) -> Stage {
    if joined { Stage::AskSend } else { Stage::AskJoin }
}

/// Where the dialog goes after `answer` to the prompt at `stage`.
pub open spec fn next_stage(stage: Stage, joined: bool, answer: Result<Seq<char>, Seq<char>>) -> Stage {
    match stage {
        Stage::AskJoin => if says_yes(answer) { Stage::AskSend } else { Stage::Done },
        Stage::AskSend => if says_yes(answer) { Stage::AskMessage } else { Stage::AskLeave },
        Stage::AskMessage => Stage::AskLeave,
        Stage::AskLeave => if says_yes(answer) { Stage::Done } else { round_start(joined) },
        Stage::Done => Stage::Done,
    }
}

/// The dialog's first prompt for `user`.
pub fn first_stage(user: &User) -> (s: Stage)
    ensures
        s == round_start(user@.joined),
{
    if user.is_joined() {
        Stage::AskSend
    } else {
        Stage::AskJoin
    }
}

/// One step of the dialog: the user answered the prompt at `stage`. Returns
/// the next stage and the request to send, if the answer makes one.
pub fn step(user: &mut User, stage: Stage, answer: Result<String, String>) -> (res: (Stage, Option<Request>))
    ensures
        res.0 == next_stage(stage, final(user)@.joined, answer_view(&answer)),
        stage == Stage::AskJoin ==> res.0 == if answer matches Ok(a) && a@ == seq!['1'] {
            Stage::AskSend
        } else {
            Stage::Done
        },
        stage == Stage::AskJoin ==> (res.0 != Stage::Done ==> final(user)@.joined),
        stage == Stage::AskSend ==> res.0 == if answer matches Ok(a) && a@ == seq!['1'] {
            Stage::AskMessage
        } else {
            Stage::AskLeave
        },
        stage == Stage::AskMessage ==> res.0 == Stage::AskLeave,
        stage == Stage::AskLeave ==> res.0 == if answer matches Ok(a) && a@ == seq!['1'] {
            Stage::Done
        } else if old(user)@.joined {
            Stage::AskSend
        } else {
            Stage::AskJoin
        },
        stage == Stage::Done ==> res.0 == Stage::Done,
        stage == Stage::AskJoin ==> {
            &&& says_yes(answer_view(&answer)) ==> final(user)@ == (UserView { name: old(user)@.name, joined: true })
                && (res.1 matches Some(r) && r@ == join_request(old(user)@.name))
            &&& !says_yes(answer_view(&answer)) ==> final(user)@ == old(user)@ && res.1 is None
        },
        stage == Stage::AskMessage ==> {
            &&& final(user)@ == old(user)@
            &&& answer is Ok <==> res.1 is Some
            &&& res.1 matches Some(r) ==> r@ == message_request(old(user)@.name, answer_view(&answer)->Ok_0)
        },
        stage != Stage::AskJoin && stage != Stage::AskMessage ==> final(user)@ == old(user)@ && res.1 is None,
{
    match stage {
        Stage::AskJoin => {
            let yes = confirms(&answer);
            let req = user.join(answer);
            if yes { (Stage::AskSend, req) } else { (Stage::Done, req) }
        },
        Stage::AskSend => {
            if confirms(&answer) { (Stage::AskMessage, None) } else { (Stage::AskLeave, None) }
        },
        Stage::AskMessage => {
            let req = user.enter_messege(answer);
            (Stage::AskLeave, req)
        },
        Stage::AskLeave => {
            if confirms(&answer) {
                (Stage::Done, None)
            } else {
                (first_stage(user), None)
            }
        },
        Stage::Done => (Stage::Done, None),
    }
}

/// At the join prompt the dialog goes on (to the send prompt) exactly on
/// the answer `1`; any other answer, or a failed read, ends it.
pub proof fn law_join_prompt_continues_only_on_yes(joined: bool, answer: Result<Seq<char>, Seq<char>>)
    ensures
        next_stage(Stage::AskJoin, joined, answer) == Stage::AskSend <==> answer == Ok::<Seq<char>, Seq<char>>(seq!['1']),
        next_stage(Stage::AskJoin, joined, answer) == Stage::Done <==> answer != Ok::<Seq<char>, Seq<char>>(seq!['1']),
{
}

/// At the send prompt the user is asked for a message exactly on the
/// answer `1`; any other answer, or a failed read, moves on to the leave prompt.
pub proof fn law_send_prompt_writes_only_on_yes(joined: bool, answer: Result<Seq<char>, Seq<char>>)
    ensures
        next_stage(Stage::AskSend, joined, answer) == Stage::AskMessage <==> answer == Ok::<Seq<char>, Seq<char>>(seq!['1']),
        next_stage(Stage::AskSend, joined, answer) == Stage::AskLeave <==> answer != Ok::<Seq<char>, Seq<char>>(seq!['1']),
{
}

/// At the leave prompt the dialog ends exactly on the answer `1`; any
/// other answer, or a failed read, starts a new round: the send prompt for
/// a joined user, the join prompt otherwise.
pub proof fn law_leave_prompt_ends_only_on_yes(joined: bool, answer: Result<Seq<char>, Seq<char>>)
    ensures
        next_stage(Stage::AskLeave, joined, answer) == Stage::Done <==> answer == Ok::<Seq<char>, Seq<char>>(seq!['1']),
        answer != Ok::<Seq<char>, Seq<char>>(seq!['1']) ==> next_stage(Stage::AskLeave, joined, answer) == if joined {
            Stage::AskSend
        } else {
            Stage::AskJoin
        },
{
}

/// The requests the chat client makes are the ones the server acts on: a
/// join request carries the join code and the user's name, a message
/// request carries the send code, the user's name and the text typed.
pub proof fn law_client_requests_are_understood(name: Seq<char>, text: Seq<char>)
    ensures
        method_of_code(join_request(name).method) == Some(Method::Join),
        join_request(name).from == name,
        method_of_code(message_request(name, text).method) == Some(Method::Send),
        message_request(name, text).from == name,
        message_request(name, text).text == text,
{
    lemma_codes_differ();
}

} // verus!
