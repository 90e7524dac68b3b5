//! The home-thread actor core: a `Threlm` owner holds the one mutable copy of
//! the application state (the model) together with the FIFO dispatch queue
//! through which every other part of the program requests state changes.
//!
//! Handles (`Actor`) never touch the model directly: a `tell` only appends a
//! message to the owner's queue, and the home thread alone drains that queue,
//! applying one message at a time, in arrival order, to the model. Delivery
//! through a handle whose owner has been destroyed fails with [`DeadModel`];
//! messages that were still queued when the owner was destroyed are discarded
//! unobserved, which is the accepted shutdown race.

use vstd::prelude::*;

verus! {

/// The application state owned by the home thread.
///
/// The methods carry no contract of their own: the owner promises only how
/// and in what order messages reach `update`, never what an implementation
/// does with them.
pub trait Model: Sized {
    /// The messages this model can receive.
    type Message;

    /// Called once when the model is moved into its owner, with a handle
    /// through which event sources belonging to the model can be wired up.
    fn connect(&self, stream: Actor<Self>);

    /// Apply one message to the state. The owner calls this exactly once per
    /// queued message, sequentially and in queue order.
    fn update(&mut self, message: Self::Message, stream: Actor<Self>);
}

/// The error a `tell` returns when the model it addresses no longer exists.
#[derive(Clone, Copy, Debug, PartialEq, Eq, Structural)]
pub struct DeadModel;

/// A lightweight, cloneable handle through which a message can be submitted
/// to a [`Threlm`] owner's queue.
///
/// A handle carries only an origin label: clones of one handle share its
/// label, so the per-origin delivery-order statements below can speak of all
/// submissions made through one handle family. The label has no other
/// meaning, and a handle grants no direct access to the model.
pub struct Actor<C: Model> {
    origin: u64,
    _model: core::marker::PhantomData<C>,
}

/// Owns a struct implementing the [`Model`] trait together with the FIFO
/// queue feeding it, and hands out [`Actor`] handles. Destroying the model
/// while handles survive is modelled by [`Threlm::destroy`]: the queue
/// mechanism outlives the model, and later deliveries fail or are discarded.
pub struct Threlm<C: Model> {
    inner: Option<C>,
    pending: Vec<(u64, C::Message)>,
    history: Ghost<Seq<(u64, C::Message)>>,
    applied: Ghost<Seq<(u64, C::Message)>>,
    discarded: Ghost<Seq<(u64, C::Message)>>,
}

impl<C: Model> Actor<C> {
    /// Make a handle with the given origin label.
    pub fn new(origin: u64) -> (a: Self)
        ensures
            a.origin() == origin,
    {
        Actor { origin, _model: core::marker::PhantomData }
    }

    /// The origin label this handle and all its clones carry.
    pub closed spec fn origin(self) -> u64 {
        self.origin
    }

    /// Submit a message to the owner's queue without blocking.
    ///
    /// While the model is alive this always succeeds and appends exactly one
    /// entry, tagged with this handle's origin, to the back of the queue;
    /// nothing is applied yet. Once the model has been destroyed it returns
    /// [`DeadModel`] and changes nothing.
    pub fn tell(&self, owner: &mut Threlm<C>, message: C::Message) -> (r: Result<(), DeadModel>)
        requires
            old(owner).wf(),
        ensures
            final(owner).wf(),
            r is Ok <==> old(owner).alive(),
            final(owner).alive() == old(owner).alive(),
            final(owner).applied() == old(owner).applied(),
            old(owner).alive() ==> final(owner).history() == old(owner).history().push(
                (self.origin(), message),
            ) && final(owner).pending() == old(owner).pending().push(
                (self.origin(), message),
            ),
            !old(owner).alive() ==> *final(owner) == *old(owner),
    {
        if owner.inner.is_some() {
            let ghost entry = (self.origin, message);
            owner.pending.push((self.origin, message));
            proof {
                owner.history@ = owner.history@.push(entry);
            }
            Ok(())
        } else {
            Err(DeadModel)
        }
    }
}

impl<C: Model> Clone for Actor<C> {
    /// Cloning a handle is cheap, never fails, and keeps the origin label.
    fn clone(&self) -> (a: Self)
        ensures
            a.origin() == self.origin(),
    {
        Actor { origin: self.origin, _model: core::marker::PhantomData }
    }
}

impl<C: Model> Threlm<C> {
    /// The submissions accepted so far, oldest first: one `(origin, message)`
    /// entry per successful `tell`.
    pub closed spec fn history(self) -> Seq<(u64, C::Message)> {
        self.history@
    }

    /// The entries already handed to the model's `update`, oldest first.
    pub closed spec fn applied(self) -> Seq<(u64, C::Message)> {
        self.applied@
    }

    /// The entries dropped unobserved because the model was destroyed while
    /// they were still queued.
    pub closed spec fn discarded(self) -> Seq<(u64, C::Message)> {
        self.discarded@
    }

    /// The entries accepted but not yet processed, oldest first.
    pub closed spec fn pending(self) -> Seq<(u64, C::Message)> {
        self.pending@
    }

    /// Whether the model still exists.
    pub closed spec fn alive(self) -> bool {
        self.inner is Some
    }

    /// Every accepted submission is accounted for, in order: first the ones
    /// the model observed, then the ones lost to destruction, then the ones
    /// still queued — and nothing is lost while the model is alive.
    pub open spec fn wf(self) -> bool {
        &&& self.history() == self.applied() + self.discarded() + self.pending()
        &&& (self.alive() ==> self.discarded() == Seq::<(u64, C::Message)>::empty())
    }

    /// Move a model into a fresh owner with an empty queue. The model's
    /// `connect` is called once so it can wire its own event sources up.
    pub fn new(inner: C) -> (t: Self)
        ensures
            t.wf(),
            t.alive(),
            t.history() == Seq::<(u64, C::Message)>::empty(),
            t.applied() == Seq::<(u64, C::Message)>::empty(),
            t.pending() == Seq::<(u64, C::Message)>::empty(),
    {
        let t = Threlm {
            inner: Some(inner),
            pending: Vec::new(),
            history: Ghost(Seq::empty()),
            applied: Ghost(Seq::empty()),
            discarded: Ghost(Seq::empty()),
        };
        match &t.inner {
            Some(model) => model.connect(Actor::new(0)),
            None => (),
        }
        t
    }

    /// Obtain a handle to this owner. All handles given out here carry the
    /// owner's own origin label `0`; give workers handles with labels of
    /// their own (via [`Actor::new`]) where their submissions are to be told
    /// apart.
    pub fn actor(&self) -> (a: Actor<C>)
        ensures
            a.origin() == 0,
    {
        Actor::new(0)
    }

    /// Whether the model still exists.
    pub fn is_alive(&self) -> (r: bool)
        ensures
            r == self.alive(),
    {
        self.inner.is_some()
    }

    /// The model as it stands now, if it still exists.
    pub closed spec fn inner_model(self) -> Option<C> {
        self.inner
    }

    /// Borrow the model — to read what the queued messages have made of it,
    /// as only the home thread can.
    pub fn model(&self) -> (m: Option<&C>)
        ensures
            m is Some <==> self.alive(),
            m matches Some(r) ==> self.inner_model() matches Some(v) && *r == v,
    {
        self.inner.as_ref()
    }

    /// How many accepted messages are still queued.
    pub fn queue_len(&self) -> (n: usize)
        ensures
            n == self.pending().len(),
    {
        self.pending.len()
    }

    /// Destroy the model. The queue mechanism survives so that outstanding
    /// handles observe [`DeadModel`] on their next `tell`; whatever is still
    /// queued will be discarded unobserved.
    pub fn destroy(&mut self)
        requires
            old(self).wf(),
        ensures
            final(self).wf(),
            !final(self).alive(),
            final(self).history() == old(self).history(),
            final(self).applied() == old(self).applied(),
            final(self).pending() == old(self).pending(),
            final(self).discarded() == old(self).discarded(),
    {
        self.inner = None;
    }

    /// Take the oldest queued entry, if any, and hand it to the model's
    /// `update`; if the model has been destroyed the entry is discarded
    /// instead. Returns whether an entry was taken.
    pub fn process_next(&mut self) -> (processed: bool)
        requires
            old(self).wf(),
        ensures
            final(self).wf(),
            processed <==> old(self).pending().len() > 0,
            final(self).history() == old(self).history(),
            final(self).alive() == old(self).alive(),
            old(self).pending().len() == 0 ==> *final(self) == *old(self),
            old(self).pending().len() > 0 ==> final(self).pending() == old(self).pending().drop_first(),
            old(self).pending().len() > 0 && old(self).alive() ==> final(self).applied() == old(self).applied().push(old(self).pending()[0]) && final(self).discarded() == old(self).discarded(),
            old(self).pending().len() > 0 && !old(self).alive() ==> final(self).applied() == old(self).applied() && final(self).discarded() == old(self).discarded().push(
                old(self).pending()[0],
            ),
    {
        if self.pending.len() == 0 {
            return false;
        }
        let (origin, message) = self.pending.remove(0);
        let ghost entry = (origin, message);
        proof {
            assert(self.pending@ =~= old(self).pending().drop_first());
        }
        match &mut self.inner {
            Some(model) => {
                model.update(message, Actor::new(origin));
                proof {
                    self.applied@ = self.applied@.push(entry);
                    assert(self.history@ =~= self.applied@ + self.discarded@ + self.pending@);
                }
            },
            None => {
                proof {
                    self.discarded@ = self.discarded@.push(entry);
                    assert(self.history@ =~= self.applied@ + self.discarded@ + self.pending@);
                }
            },
        }
        true
    }

    /// Process queued entries until the queue is empty.
    pub fn drain(&mut self)
        requires
            old(self).wf(),
        ensures
            final(self).wf(),
            final(self).pending().len() == 0,
            final(self).history() == old(self).history(),
            final(self).alive() == old(self).alive(),
            old(self).alive() ==> final(self).applied() == old(self).applied() + old(self).pending(),
            !old(self).alive() ==> final(self).applied() == old(self).applied() && final(self).discarded() == old(self).discarded() + old(self).pending(),
    {
        while self.pending.len() != 0
            invariant
                self.wf(),
                self.history() == old(self).history(),
                self.alive() == old(self).alive(),
                old(self).alive() ==> old(self).applied() + old(self).pending() == self.applied()
                    + self.pending(),
                !old(self).alive() ==> self.applied() == old(self).applied() && old(self).discarded() + old(self).pending() == self.discarded() + self.pending(),
            decreases self.pending().len(),
        {
            self.process_next();
        }
        proof {
            assert(self.pending() =~= Seq::<(u64, C::Message)>::empty());
            if old(self).alive() {
                assert(self.applied() =~= old(self).applied() + old(self).pending());
            } else {
                assert(self.discarded() =~= old(self).discarded() + old(self).pending());
            }
        }
    }
}

/// Whether an entry was submitted through a handle with the given origin
/// label.
pub open spec fn origin_pred<M>(origin: u64) -> spec_fn((u64, M)) -> bool {
    |e: (u64, M)| e.0 == origin
}

/// The subsequence of `s` submitted through handles with the given origin
/// label, in order.
pub open spec fn from_origin<M>(s: Seq<(u64, M)>, origin: u64) -> Seq<(u64, M)> {
    s.filter(origin_pred(origin))
}

/// Law (delivery order): what the model has observed is exactly the oldest
/// prefix of the accepted submission history — `update` sees messages in
/// `tell` order, never reordered, skipped or repeated.
pub proof fn lemma_fifo<C: Model>(t: Threlm<C>)
    requires
        t.wf(),
    ensures
        t.applied() == t.history().take(t.applied().len() as int),
{
    assert(t.history().take(t.applied().len() as int) =~= t.applied());
}

/// Law (FIFO per origin): for every handle family, the submissions the model
/// has observed from that family are exactly the oldest prefix of the
/// family's accepted submissions, in `tell` order.
pub proof fn lemma_fifo_per_origin<C: Model>(t: Threlm<C>, origin: u64)
    requires
        t.wf(),
    ensures
        from_origin(t.applied(), origin) == from_origin(t.history(), origin).take(
            from_origin(t.applied(), origin).len() as int,
        ),
{
    let pred = origin_pred::<C::Message>(origin);
    let rest = t.discarded() + t.pending();
    assert(t.history() == t.applied() + rest);
    Seq::filter_distributes_over_add(t.applied(), rest, pred);
    assert(from_origin(t.history(), origin) == from_origin(t.applied(), origin) + rest.filter(
        pred,
    ));
    assert(from_origin(t.history(), origin).take(from_origin(t.applied(), origin).len() as int)
        =~= from_origin(t.applied(), origin));
}

} // verus!
