use vstd::prelude::*;

verus! {

/// An owned native object, boxed so that the host boundary can hold it
/// behind a stable address while the host drives its lifetime.
pub struct Pointer<Kind> {
    value: Box<Kind>,
}

impl<Kind> Pointer<Kind> {
    /// Takes ownership of a freshly constructed object. Never fails.
    pub fn new(value: Kind) -> (r: Self)
        ensures
            r@ == value,
    {
        Pointer { value: Box::new(value) }
    }

    /// The held object, for the duration of the current call.
    pub fn borrow(&self) -> (r: &Kind)
        ensures
            *r == self@,
    {
        &self.value
    }

    /// Consumes the pointer and yields the object back.
    pub fn into_inner(self) -> (r: Kind)
        ensures
            r == self@,
    {
        *self.value
    }
}

impl<Kind> View for Pointer<Kind> {
    type V = Kind;

    closed spec fn view(&self) -> Kind {
        *self.value
    }
}

/// The registry through which the host owns native objects.
///
/// `create` hands out an opaque handle for an object; `borrow` yields the
/// object behind a live handle; `destroy` consumes the handle and drops the
/// object. The registry is liveness-checked: it keeps a slot per handle it
/// ever issued, so using a destroyed or never-issued handle is a reported
/// error (`None`), not undefined behaviour, and a handle is never reissued
/// for a new object.
pub struct Registry<T> {
    slots: Vec<Option<T>>,
}

impl<T> View for Registry<T> {
    type V = Seq<Option<T>>;

    closed spec fn view(&self) -> Seq<Option<T>> {
        self.slots@
    }
}

impl<T> Registry<T> {
    /// A handle is live when it was issued and has not been destroyed.
    pub open spec fn live(&self, h: usize) -> bool {
        h < self@.len() && self@[h as int] is Some
    }

    /// An empty registry: no handle has been issued.
    pub fn new() -> (r: Self)
        ensures
            r@ == Seq::<Option<T>>::empty(),
    {
        Registry { slots: Vec::new() }
    }

    /// Takes ownership of `obj` and issues a fresh live handle for it.
    /// Never fails.
    pub fn create(&mut self, obj: T) -> (h: usize)
        ensures
            h == old(self)@.len(),
            final(self)@ == old(self)@.push(Some(obj)),
            final(self).live(h),
    {
        let h = self.slots.len();
        self.slots.push(Some(obj));
        h
    }

    /// The object behind a live handle; `None` for a destroyed or
    /// never-issued one.
    pub fn borrow(&self, h: usize) -> (r: Option<&T>)
        ensures
            match r {
                Some(obj) => self.live(h) && Some(*obj) == self@[h as int],
                None => !self.live(h),
            },
    {
        if h < self.slots.len() {
            self.slots[h].as_ref()
        } else {
            None
        }
    }

    /// The object behind a live handle, exclusively, for the duration of the
    /// current call; `None` for a destroyed or never-issued one. What the
    /// caller makes of the object is what the handle owns afterwards.
    pub fn borrow_mut(&mut self, h: usize) -> (r: Option<&mut T>)
        ensures
            old(self).live(h) <==> r is Some,
            r is Some ==> {
                &&& *r.unwrap() == old(self)@[h as int].unwrap()
                &&& final(self)@ == old(self)@.update(h as int, Some(*final(r.unwrap())))
            },
            r is None ==> final(self)@ == old(self)@,
    {
        if h < self.slots.len() {
            proof {
                if self@[h as int] is None {
                    assert(self@.update(h as int, None::<T>) =~= self@);
                }
            }
            self.slots[h].as_mut()
        } else {
            None
        }
    }

    /// Consumes a live handle: yields the object it owned, whose teardown now
    /// runs with the caller's drop of it, and leaves the handle dead. On a
    /// destroyed or never-issued handle it yields `None` and changes nothing.
    pub fn destroy(&mut self, h: usize) -> (r: Option<T>)
        ensures
            old(self).live(h) ==> {
                &&& r == old(self)@[h as int]
                &&& final(self)@ == old(self)@.update(h as int, None::<T>)
            },
            !old(self).live(h) ==> r is None && final(self)@ == old(self)@,
    {
        if h < self.slots.len() {
            let slot = &mut self.slots[h];
            let r = slot.take();
            if r.is_none() {
                proof {
                    assert(self@ =~= old(self)@);
                }
            } else {
                proof {
                    assert(self@ =~= old(self)@.update(h as int, None::<T>));
                }
            }
            r
        } else {
            None
        }
    }

    /// How many handles have been issued over the registry's lifetime.
    pub fn issued(&self) -> (r: usize)
        ensures
            r == self@.len(),
    {
        self.slots.len()
    }
}

} // verus!
