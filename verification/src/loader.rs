use oneshot::Receiver;
use vstd::prelude::*;

verus! {

#[verifier::external_type_specification]
#[verifier::external_body]
#[verifier::reject_recursive_types(T)]
pub struct ExReceiver<T>(Receiver<T>);

/// Calls `oneshot::Receiver::try_recv` and keeps the message, if one has
/// arrived. Whether one has arrived depends on the loading thread, so nothing
/// is claimed of the result.
#[verifier::external_body]
fn try_take<T>(rx: &Receiver<T>) -> (message: Option<T>) {
    rx.try_recv().ok()
}

pub enum LoaderState<T> {
    Pending,
    Done(T),
}

/// A value that another thread computes, received once it is ready.
#[verifier::reject_recursive_types(T)]
pub struct Loader<T> {
    state: Option<T>,
    rx: Receiver<T>,
}

impl<T> Loader<T> {
    /// The value received so far, if any.
    pub closed spec fn result(&self) -> Option<T> {
        self.state
    }

    /// The receiving end the loader waits on.
    pub closed spec fn source(&self) -> Receiver<T> {
        self.rx
    }

    /// What one poll may do: a value once held stays as it is; while none is
    /// held, one may arrive.
    pub open spec fn polled(before: Option<T>, after: Option<T>) -> bool {
        before is Some ==> after == before
    }

    /// A loader that waits for the value that the other end of `rx` sends.
    pub fn new(rx: Receiver<T>) -> (loader: Self)
        ensures
            loader.result() is None,
            loader.source() == rx,
    {
        Self { rx, state: None }
    }

    /// Looks for the value, then reports whether it is there.
    pub fn get_state(&mut self) -> (s: LoaderState<&T>)
        ensures
            Self::polled(old(self).result(), final(self).result()),
            final(self).source() == old(self).source(),
            match s {
                LoaderState::Done(v) => final(self).result() == Some(*v),
                LoaderState::Pending => final(self).result() is None,
            },
    {
        self.poll();
        match self.state.as_ref() {
            Some(res) => LoaderState::Done(res),
            None => LoaderState::Pending,
        }
    }

    /// Looks for the value, then hands it over, or gives the loader back
    /// when it is still pending.
    pub fn take_state(self) -> (r: Result<T, Self>)
        ensures
            self.result() matches Some(v) ==> r matches Ok(w) && w == v,
            match r {
                Ok(v) => Self::polled(self.result(), Some(v)),
                Err(loader) => loader.result() is None && self.result() is None && loader.source()
                    == self.source(),
            },
    {
        let mut this = self;
        this.poll();
        if let Some(state) = this.state.take() {
            Ok(state)
        } else {
            Err(this)
        }
    }

    /// Takes in what the receiving end handed over on one look: a value that
    /// arrived becomes the loader's value; when none arrived the loader stays
    /// as it was.
    pub fn receive(&mut self, arrived: Option<T>)
        ensures
            final(self).result() == (if arrived is Some { arrived } else { old(self).result() }),
            final(self).source() == old(self).source(),
    {
        if let Some(res) = arrived {
            self.state = Some(res);
        }
    }

    fn poll(&mut self)
        ensures
            Self::polled(old(self).result(), final(self).result()),
            final(self).source() == old(self).source(),
    {
        // A oneshot receiver that has handed over its message answers every
        // later receive with an error, so once a value is held there is
        // nothing more to receive.
        if self.state.is_none() {
            let arrived = try_take(&self.rx);
            self.receive(arrived);
        }
    }
}

/// A loader that has its value keeps it: polling never makes it pending
/// again, nor changes the value.
pub proof fn law_done_stays_done<T>(before: Option<T>, after: Option<T>)
    requires
        before is Some,
        Loader::<T>::polled(before, after),
    ensures
        after == before,
{
}

} // verus!
