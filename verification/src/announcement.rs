//! The queue of messages that paces a battle.
//!
//! The messages are kept by `queues::Queue`. What the queue holds is given
//! a name, `queued_texts`, and each of its operations says what it does to
//! that.

use queues::IsQueue;
use vstd::prelude::*;

verus! {

/// Makes `queues::Queue` known to Verus as a type whose inside it does not
/// see.
#[verifier::external_type_specification]
#[verifier::external_body]
#[verifier::reject_recursive_types(T)]
pub struct ExQueue<T: Clone>(queues::Queue<T>);

/// The texts a queue holds, the oldest first.
pub uninterp spec fn queued_texts(queue: queues::Queue<String>) -> Seq<Seq<char>>;

/// Calls `Queue::new`, which gives a queue that holds nothing.
#[verifier::external_body]
fn queue_new() -> (r: queues::Queue<String>)
    ensures
        queued_texts(r).len() == 0,
{
    queues::Queue::new()
}

/// Calls `Queue::add`, which puts `text` behind everything the queue holds.
/// On this kind of queue the call always succeeds and pushes nothing out.
#[verifier::external_body]
fn queue_add(queue: &mut queues::Queue<String>, text: String)
    ensures
        queued_texts(*final(queue)) == queued_texts(*old(queue)).push(text@),
{
    let _ = queue.add(text);
}

/// Calls `Queue::remove`, which takes the oldest text out and hands it
/// over. On an empty queue it reports an error and changes nothing; that
/// error is given as `None`.
#[verifier::external_body]
fn queue_remove(queue: &mut queues::Queue<String>) -> (r: Option<String>)
    ensures
        r is Some <==> queued_texts(*old(queue)).len() > 0,
        r is Some ==> r.unwrap()@ == queued_texts(*old(queue)).first(),
        r is Some ==> queued_texts(*final(queue)) == queued_texts(*old(queue)).drop_first(),
        r is None ==> queued_texts(*final(queue)) == queued_texts(*old(queue)),
{
    queue.remove().ok()
}

/// Calls `Queue::peek`, which hands over a copy of the oldest text and
/// leaves the queue alone. On an empty queue it reports an error, which is
/// given as `None`.
#[verifier::external_body]
fn queue_peek(queue: &queues::Queue<String>) -> (r: Option<String>)
    ensures
        r is Some <==> queued_texts(*queue).len() > 0,
        r is Some ==> r.unwrap()@ == queued_texts(*queue).first(),
{
    queue.peek().ok()
}

/// Calls `Queue::size`, which counts the texts the queue holds.
#[verifier::external_body]
fn queue_size(queue: &queues::Queue<String>) -> (r: usize)
    ensures
        r == queued_texts(*queue).len(),
{
    queue.size()
}

/// The messages that wait to be shown, the oldest first.
pub struct AnnouncementQueue {
    texts: queues::Queue<String>,
}

impl AnnouncementQueue {
    /// The waiting messages, the oldest first.
    pub closed spec fn view(&self) -> Seq<Seq<char>> {
        queued_texts(self.texts)
    }

    /// A queue in which nothing waits.
    pub fn new() -> (r: Self)
        ensures
            r@ == Seq::<Seq<char>>::empty(),
    {
        let r = AnnouncementQueue { texts: queue_new() };
        assert(r@ =~= Seq::<Seq<char>>::empty());
        r
    }

    /// Puts `text` behind the messages that wait.
    pub fn push(&mut self, text: String)
        ensures
            final(self)@ == old(self)@.push(text@),
    {
        queue_add(&mut self.texts, text);
    }

    /// Takes out the message that has waited longest.
    pub fn pop(&mut self) -> (r: Option<String>)
        ensures
            r is Some <==> old(self)@.len() > 0,
            r is Some ==> r.unwrap()@ == old(self)@[0] && final(self)@ == old(self)@.drop_first(),
            r is None ==> final(self)@ == old(self)@,
    {
        queue_remove(&mut self.texts)
    }

    /// The message that has waited longest, left in its place.
    pub fn peek(&self) -> (r: Option<String>)
        ensures
            r is Some <==> self@.len() > 0,
            r is Some ==> r.unwrap()@ == self@[0],
    {
        queue_peek(&self.texts)
    }

    /// How many messages wait.
    pub fn len(&self) -> (r: usize)
        ensures
            r == self@.len(),
    {
        queue_size(&self.texts)
    }

    /// Whether no message waits.
    pub fn is_empty(&self) -> (r: bool)
        ensures
            r == (self@.len() == 0),
    {
        queue_size(&self.texts) == 0
    }
}

} // verus!
