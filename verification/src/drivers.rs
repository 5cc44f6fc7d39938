//! Driver support.

use vstd::prelude::*;

use self::interface::{DeviceDriver, DeviceDriverPostInitCallback};
use crate::synchronization::interface::Mutex;
use crate::synchronization::SpinLock;

pub mod interface;

verus! {

/// How many drivers the registry holds at most.
pub const NUM_DRIVERS: usize = 256;

/// A descriptor for device drivers: the driver, and an optional step that
/// runs once the driver's `init` has succeeded.
pub struct DeviceDriverDescriptor<D, C> {
    device_driver: D,
    post_init_callback: Option<C>,
}

impl<D: Copy, C: Copy> Clone for DeviceDriverDescriptor<D, C> {
    fn clone(&self) -> (copy: Self)
        ensures
            copy == *self,
    {
        *self
    }
}

impl<D: Copy, C: Copy> Copy for DeviceDriverDescriptor<D, C> {

}

impl<D: DeviceDriver + Copy, C: DeviceDriverPostInitCallback + Copy> DeviceDriverDescriptor<D, C> {
    /// The driver that the descriptor stands for.
    pub closed spec fn spec_device_driver(&self) -> D {
        self.device_driver
    }

    /// The callback that runs after the driver's `init`, if there is one.
    pub closed spec fn spec_post_init_callback(&self) -> Option<C> {
        self.post_init_callback
    }

    /// The descriptor of `device_driver` and `post_init_callback`.
    pub closed spec fn spec_new(device_driver: D, post_init_callback: Option<C>) -> Self {
        Self { device_driver, post_init_callback }
    }

    /// The parts of the descriptor that is made of `device_driver` and
    /// `post_init_callback`.
    pub proof fn lemma_spec_new(device_driver: D, post_init_callback: Option<C>)
        ensures
            Self::spec_new(device_driver, post_init_callback).spec_device_driver()
                == device_driver,
            Self::spec_new(device_driver, post_init_callback).spec_post_init_callback()
                == post_init_callback,
    {
    }

    /// Create an instance.
    pub fn new(device_driver: D, post_init_callback: Option<C>) -> (descriptor: Self)
        ensures
            descriptor == Self::spec_new(device_driver, post_init_callback),
            descriptor.spec_device_driver() == device_driver,
            descriptor.spec_post_init_callback() == post_init_callback,
    {
        Self { device_driver, post_init_callback }
    }

    /// The driver that the descriptor stands for.
    #[verifier::when_used_as_spec(spec_device_driver)]
    pub fn device_driver(&self) -> (driver: D)
        ensures
            driver == self.spec_device_driver(),
    {
        self.device_driver
    }

    /// The callback that runs after the driver's `init`, if there is one.
    #[verifier::when_used_as_spec(spec_post_init_callback)]
    pub fn post_init_callback(&self) -> (callback: Option<C>)
        ensures
            callback == self.spec_post_init_callback(),
    {
        self.post_init_callback
    }
}

/// Which of a descriptor's two calls failed.
#[derive(Clone, Copy, Debug, PartialEq, Eq, Structural)]
pub enum InitStage {
    /// The driver's own `init`.
    DriverInit,
    /// The post-init callback.
    PostInit,
}

/// Why driver initialization stopped.
pub struct DriverInitError<D, C> {
    /// The slot of the descriptor whose call failed.
    pub index: usize,
    /// The call that failed.
    pub stage: InitStage,
    /// The descriptor in that slot.
    pub descriptor: DeviceDriverDescriptor<D, C>,
    /// What the failing call reported.
    pub message: &'static str,
}

impl<D: Copy, C: Copy> Clone for DriverInitError<D, C> {
    fn clone(&self) -> (copy: Self)
        ensures
            copy == *self,
    {
        *self
    }
}

impl<D: Copy, C: Copy> Copy for DriverInitError<D, C> {

}

/// Where the initialization protocol stands: the call to make next, or how it
/// ended.
pub enum InitStep<D, C> {
    /// Call `init` of the driver in this slot.
    Init(usize),
    /// Call the post-init callback of the descriptor in this slot.
    PostInit(usize),
    /// Every call has been made and has succeeded.
    Done,
    /// A call failed. Nothing is called after it.
    Halt(DriverInitError<D, C>),
}

impl<D: Copy, C: Copy> Clone for InitStep<D, C> {
    fn clone(&self) -> (copy: Self)
        ensures
            copy == *self,
    {
        *self
    }
}

impl<D: Copy, C: Copy> Copy for InitStep<D, C> {

}

/// What a driver's `init` or a post-init callback answers.
pub type CallOutcome = Result<(), &'static str>;

/// The step that opens the work on slot `index`: the driver's `init`, or the
/// end of the protocol behind the last slot.
pub open spec fn step_at_slot<D, C>(
    descriptors: Seq<DeviceDriverDescriptor<D, C>>,
    index: int,
) -> InitStep<D, C> {
    if 0 <= index < descriptors.len() {
        InitStep::Init(index as usize)
    } else {
        InitStep::Done
    }
}

/// The step the protocol starts with.
pub open spec fn first_step<D, C>(descriptors: Seq<DeviceDriverDescriptor<D, C>>) -> InitStep<
    D,
    C,
> {
    step_at_slot(descriptors, 0)
}

/// The step that follows `step` once its call has answered `outcome`.
///
/// A failure halts. A successful `init` is followed by the descriptor's
/// post-init callback if it has one, else by the next slot; a successful
/// callback by the next slot. `Done` and `Halt` stay as they are.
pub open spec fn step_after<D: DeviceDriver + Copy, C: DeviceDriverPostInitCallback + Copy>(
    descriptors: Seq<DeviceDriverDescriptor<D, C>>,
    step: InitStep<D, C>,
    outcome: CallOutcome,
) -> InitStep<D, C> {
    match step {
        InitStep::Init(index) => match outcome {
            Err(message) => InitStep::Halt(
                DriverInitError {
                    index,
                    stage: InitStage::DriverInit,
                    descriptor: descriptors[index as int],
                    message,
                },
            ),
            Ok(_) => if descriptors[index as int].spec_post_init_callback().is_some() {
                InitStep::PostInit(index)
            } else {
                step_at_slot(descriptors, index + 1)
            },
        },
        InitStep::PostInit(index) => match outcome {
            Err(message) => InitStep::Halt(
                DriverInitError {
                    index,
                    stage: InitStage::PostInit,
                    descriptor: descriptors[index as int],
                    message,
                },
            ),
            Ok(_) => step_at_slot(descriptors, index + 1),
        },
        InitStep::Done => InitStep::Done,
        InitStep::Halt(error) => InitStep::Halt(error),
    }
}

/// Whether `step` asks for a call.
pub open spec fn is_call<D, C>(step: InitStep<D, C>) -> bool {
    step is Init || step is PostInit
}

/// Whether `step` fits the registry: a call names a populated slot, a
/// post-init step a descriptor that has a callback, and a halt the descriptor
/// of its slot.
pub open spec fn step_fits<D: DeviceDriver + Copy, C: DeviceDriverPostInitCallback + Copy>(
    descriptors: Seq<DeviceDriverDescriptor<D, C>>,
    step: InitStep<D, C>,
) -> bool {
    match step {
        InitStep::Init(index) => index < descriptors.len(),
        InitStep::PostInit(index) => index < descriptors.len()
            && descriptors[index as int].spec_post_init_callback().is_some(),
        InitStep::Done => true,
        InitStep::Halt(error) => error.index < descriptors.len() && error.descriptor
            == descriptors[error.index as int],
    }
}

/// Where the protocol stands after its calls have answered `outcomes`, in
/// the order in which they were made.
pub open spec fn protocol_state<D: DeviceDriver + Copy, C: DeviceDriverPostInitCallback + Copy>(
    descriptors: Seq<DeviceDriverDescriptor<D, C>>,
    outcomes: Seq<CallOutcome>,
) -> InitStep<D, C>
    decreases outcomes.len(),
{
    if outcomes.len() == 0 {
        first_step(descriptors)
    } else {
        step_after(descriptors, protocol_state(descriptors, outcomes.drop_last()), outcomes.last())
    }
}

/// Whether `outcome` is an answer to the call that `step` asks for: what the
/// `init` of the driver in the step's slot, or the post-init callback of its
/// descriptor, may return. Where `step` asks for no call, nothing answers it.
pub open spec fn answers<D: DeviceDriver + Copy, C: DeviceDriverPostInitCallback + Copy>(
    descriptors: Seq<DeviceDriverDescriptor<D, C>>,
    step: InitStep<D, C>,
    outcome: CallOutcome,
) -> bool {
    match step {
        InitStep::Init(index) => call_ensures(
            D::init,
            (&descriptors[index as int].spec_device_driver(),),
            outcome,
        ),
        InitStep::PostInit(index) => descriptors[index as int].spec_post_init_callback() matches Some(
            callback,
        ) && call_ensures(C::call, (&callback,), outcome),
        InitStep::Done => false,
        InitStep::Halt(_) => false,
    }
}

/// Whether `outcomes` are the answers of a run of the protocol: each one
/// answers the call that the protocol asked for when it came in. So none
/// came in after the protocol had ended.
pub open spec fn is_run<D: DeviceDriver + Copy, C: DeviceDriverPostInitCallback + Copy>(
    descriptors: Seq<DeviceDriverDescriptor<D, C>>,
    outcomes: Seq<CallOutcome>,
) -> bool {
    forall|k: int|
        0 <= k < outcomes.len() ==> answers(
            descriptors,
            #[trigger] protocol_state(descriptors, outcomes.take(k)),
            outcomes[k],
        )
}

/// How many calls are left at most, counting the one that `step` asks for.
pub open spec fn calls_left<D, C>(
    descriptors: Seq<DeviceDriverDescriptor<D, C>>,
    step: InitStep<D, C>,
) -> int {
    match step {
        InitStep::Init(index) => 2 * (descriptors.len() - index),
        InitStep::PostInit(index) => 2 * (descriptors.len() - index) - 1,
        InitStep::Done => 0,
        InitStep::Halt(_) => 0,
    }
}

/// What `init_drivers` returns when the protocol has ended in `step`.
pub open spec fn result_of<D, C>(step: InitStep<D, C>) -> Result<(), DriverInitError<D, C>> {
    match step {
        InitStep::Halt(error) => Err(error),
        _ => Ok(()),
    }
}

/// The registry behind the driver manager: a fixed number of slots, filled
/// from the front.
pub struct DriverManagerInner<D, C> {
    next_index: usize,
    descriptors: [Option<DeviceDriverDescriptor<D, C>>; NUM_DRIVERS],
}

impl<D: DeviceDriver + Copy, C: DeviceDriverPostInitCallback + Copy> DriverManagerInner<D, C> {
    /// Slots below the next free index are populated, the others are empty.
    pub closed spec fn wf(&self) -> bool {
        &&& self.next_index <= NUM_DRIVERS
        &&& forall|i: int|
            0 <= i < NUM_DRIVERS ==> ((#[trigger] self.descriptors[i]).is_some() <==> i
                < self.next_index)
    }

    /// The registered descriptors, in registration order.
    pub closed spec fn view(&self) -> Seq<DeviceDriverDescriptor<D, C>> {
        Seq::new(self.next_index as nat, |i: int| self.descriptors[i].unwrap())
    }

    /// An empty registry.
    pub fn new() -> (inner: Self)
        ensures
            inner.wf(),
            inner@ == Seq::<DeviceDriverDescriptor<D, C>>::empty(),
    {
        Self { next_index: 0, descriptors: [None;NUM_DRIVERS] }
    }

    /// How many descriptors are registered.
    pub fn len(&self) -> (n: usize)
        requires
            self.wf(),
        ensures
            n == self@.len(),
            n <= NUM_DRIVERS,
    {
        self.next_index
    }

    /// The descriptor in slot `index`, if the slot is populated.
    pub fn descriptor(&self, index: usize) -> (descriptor: Option<DeviceDriverDescriptor<D, C>>)
        requires
            self.wf(),
        ensures
            descriptor == if index < self@.len() {
                Some(self@[index as int])
            } else {
                None
            },
    {
        if index < self.next_index {
            self.descriptors[index]
        } else {
            None
        }
    }

    /// Appends `descriptor` behind the descriptors registered so far.
    pub fn register_driver(&mut self, descriptor: DeviceDriverDescriptor<D, C>)
        requires
            old(self).wf(),
            old(self)@.len() < NUM_DRIVERS,
        ensures
            final(self).wf(),
            final(self)@ == old(self)@.push(descriptor),
    {
        self.descriptors[self.next_index] = Some(descriptor);
        self.next_index += 1;
    }

    /// The step that opens the work on slot `index`.
    fn step_at_slot(&self, index: usize) -> (step: InitStep<D, C>)
        requires
            self.wf(),
        ensures
            step == step_at_slot(self@, index as int),
    {
        if index < self.next_index {
            InitStep::Init(index)
        } else {
            InitStep::Done
        }
    }

    /// The step the initialization protocol starts with: the first driver's
    /// `init`, or `Done` where nothing is registered.
    pub fn first_step(&self) -> (step: InitStep<D, C>)
        requires
            self.wf(),
        ensures
            step == first_step(self@),
            step_fits(self@, step),
    {
        self.step_at_slot(0)
    }

    /// The step that follows `step` once its call has answered `outcome`.
    pub fn step_after(&self, step: InitStep<D, C>, outcome: CallOutcome) -> (next: InitStep<D, C>)
        requires
            self.wf(),
            step_fits(self@, step),
        ensures
            next == step_after(self@, step, outcome),
            step_fits(self@, next),
            is_call(step) ==> calls_left(self@, next) < calls_left(self@, step),
    {
        match step {
            InitStep::Init(index) => {
                let descriptor = self.descriptors[index].unwrap();
                match outcome {
                    Err(message) => InitStep::Halt(
                        DriverInitError {
                            index,
                            stage: InitStage::DriverInit,
                            descriptor,
                            message,
                        },
                    ),
                    Ok(_) => if descriptor.post_init_callback.is_some() {
                        InitStep::PostInit(index)
                    } else {
                        self.step_at_slot(index + 1)
                    },
                }
            },
            InitStep::PostInit(index) => {
                let descriptor = self.descriptors[index].unwrap();
                match outcome {
                    Err(message) => InitStep::Halt(
                        DriverInitError {
                            index,
                            stage: InitStage::PostInit,
                            descriptor,
                            message,
                        },
                    ),
                    Ok(_) => self.step_at_slot(index + 1),
                }
            },
            InitStep::Done => InitStep::Done,
            InitStep::Halt(error) => InitStep::Halt(error),
        }
    }

    /// Fully initializes all drivers, in registration order: each driver's
    /// `init`, then its descriptor's post-init callback if it has one. The
    /// first call that fails ends the run, and its error is returned.
    ///
    /// The calls decide what is returned: it is what the protocol yields for
    /// the answers that came back, each of which answered the call that the
    /// protocol asked for.
    pub fn init_drivers(&self) -> (r: Result<(), DriverInitError<D, C>>)
        requires
            self.wf(),
        ensures
            self@.len() == 0 ==> r.is_ok(),
            r matches Err(error) ==> step_fits(self@, InitStep::Halt(error)),
            exists|outcomes: Seq<CallOutcome>|
                {
                    &&& is_run(self@, outcomes)
                    &&& !is_call(#[trigger] protocol_state(self@, outcomes))
                    &&& r == result_of(protocol_state(self@, outcomes))
                },
    {
        let mut step = self.first_step();
        let ghost mut outcomes: Seq<CallOutcome> = Seq::empty();
        loop
            invariant
                self.wf(),
                step_fits(self@, step),
                step == protocol_state(self@, outcomes),
                is_run(self@, outcomes),
                self@.len() == 0 ==> step is Done,
            decreases calls_left(self@, step),
        {
            let outcome = match step {
                InitStep::Init(index) => {
                    let descriptor = self.descriptors[index].unwrap();
                    descriptor.device_driver.init()
                },
                InitStep::PostInit(index) => {
                    let descriptor = self.descriptors[index].unwrap();
                    descriptor.post_init_callback.unwrap().call()
                },
                InitStep::Done => {
                    return Ok(());
                },
                InitStep::Halt(error) => {
                    return Err(error);
                },
            };
            proof {
                let before = outcomes;
                outcomes = outcomes.push(outcome);
                assert(outcomes.drop_last() == before);
                assert forall|k: int| 0 <= k < outcomes.len() implies answers(
                    self@,
                    #[trigger] protocol_state(self@, outcomes.take(k)),
                    outcomes[k],
                ) by {
                    if k < before.len() {
                        assert(outcomes.take(k) == before.take(k));
                    } else {
                        assert(outcomes.take(k) == before);
                    }
                }
            }
            step = self.step_after(step, outcome);
        }
    }

    /// Hands each registered descriptor to `f`, in registration order, and
    /// collects what `f` makes of them.
    pub fn for_each_descriptor<R, F: Fn(&DeviceDriverDescriptor<D, C>) -> R>(&self, f: F) -> (made:
        Vec<R>)
        requires
            self.wf(),
            callable_on(f, self@),
        ensures
            made_of(f, self@, made@),
    {
        let mut made: Vec<R> = Vec::new();
        let mut index: usize = 0;
        while index < self.next_index
            invariant
                self.wf(),
                index <= self.next_index,
                made@.len() == index,
                callable_on(f, self@),
                forall|i: int| 0 <= i < index ==> call_ensures(f, (&self@[i],), #[trigger] made@[i]),
            decreases self.next_index - index,
        {
            let descriptor = self.descriptors[index].unwrap();
            assert(descriptor == self@[index as int]);
            made.push(f(&descriptor));
            index += 1;
        }
        made
    }

    /// Enumerates all registered device drivers: the descriptors in
    /// registration order, each with its ordinal, counted from 1.
    pub fn enumerate(&self) -> (listing: Vec<(usize, DeviceDriverDescriptor<D, C>)>)
        requires
            self.wf(),
        ensures
            listing@ == enumeration(self@),
    {
        let mut listing: Vec<(usize, DeviceDriverDescriptor<D, C>)> = Vec::new();
        let mut index: usize = 0;
        while index < self.next_index
            invariant
                self.wf(),
                index <= self.next_index,
                listing@ == enumeration(self@.take(index as int)),
            decreases self.next_index - index,
        {
            let descriptor = self.descriptors[index].unwrap();
            listing.push((index + 1, descriptor));
            index += 1;
            assert(listing@ == enumeration(self@.take(index as int)));
        }
        assert(self@.take(index as int) == self@);
        listing
    }
}

/// Provides device driver management functions.
pub struct DriverManager<D, C> {
    inner: SpinLock<DriverManagerInner<D, C>>,
}

/// The driver manager as the kernel has it at boot, with nothing registered.
/// The kernel keeps this one instance for as long as it runs.
pub fn driver_manager<D: DeviceDriver + Copy, C: DeviceDriverPostInitCallback + Copy>() -> (manager:
    DriverManager<D, C>)
    ensures
        manager.wf(),
        manager@ == Seq::<DeviceDriverDescriptor<D, C>>::empty(),
{
    DriverManager::new()
}

impl<D: DeviceDriver + Copy, C: DeviceDriverPostInitCallback + Copy> DriverManager<D, C> {
    /// The registry behind the lock is well formed.
    pub closed spec fn wf(&self) -> bool {
        self.inner.data().wf()
    }

    /// The registered descriptors, in registration order.
    pub closed spec fn view(&self) -> Seq<DeviceDriverDescriptor<D, C>> {
        self.inner.data()@
    }

    /// Create an instance.
    pub fn new() -> (manager: Self)
        ensures
            manager.wf(),
            manager@ == Seq::<DeviceDriverDescriptor<D, C>>::empty(),
    {
        Self { inner: SpinLock::new(DriverManagerInner::new()) }
    }

    /// How many descriptors are registered.
    pub fn len(&mut self) -> (n: usize)
        requires
            old(self).wf(),
        ensures
            final(self).wf(),
            final(self)@ == old(self)@,
            n == old(self)@.len(),
            n <= NUM_DRIVERS,
    {
        self.inner.lock(
            |inner: &mut DriverManagerInner<D, C>| -> (n: usize)
                requires
                    old(inner).wf(),
                ensures
                    *final(inner) == *old(inner),
                    n == old(inner)@.len(),
                    n <= NUM_DRIVERS,
                {
                    inner.len()
                }
        )
    }

    /// Register a device driver with the kernel, behind the drivers
    /// registered so far.
    pub fn register_driver(&mut self, descriptor: DeviceDriverDescriptor<D, C>)
        requires
            old(self).wf(),
            old(self)@.len() < NUM_DRIVERS,
        ensures
            final(self).wf(),
            final(self)@ == old(self)@.push(descriptor),
    {
        self.inner.lock(
            |inner: &mut DriverManagerInner<D, C>|
                requires
                    old(inner).wf(),
                    old(inner)@.len() < NUM_DRIVERS,
                ensures
                    final(inner).wf(),
                    final(inner)@ == old(inner)@.push(descriptor),
                {
                    inner.register_driver(descriptor)
                }
        )
    }

    /// Fully initializes all drivers, in registration order: each driver's
    /// `init`, then its descriptor's post-init callback if it has one. The
    /// first call that fails ends the run, and its error is returned. The
    /// registry is left as it was.
    pub fn init_drivers(&mut self) -> (r: Result<(), DriverInitError<D, C>>)
        requires
            old(self).wf(),
        ensures
            final(self).wf(),
            final(self)@ == old(self)@,
            old(self)@.len() == 0 ==> r.is_ok(),
            r matches Err(error) ==> step_fits(old(self)@, InitStep::Halt(error)),
            exists|outcomes: Seq<CallOutcome>|
                {
                    &&& is_run(old(self)@, outcomes)
                    &&& !is_call(#[trigger] protocol_state(old(self)@, outcomes))
                    &&& r == result_of(protocol_state(old(self)@, outcomes))
                },
    {
        self.inner.lock(
            |inner: &mut DriverManagerInner<D, C>| -> (r: Result<(), DriverInitError<D, C>>)
                requires
                    old(inner).wf(),
                ensures
                    *final(inner) == *old(inner),
                    old(inner)@.len() == 0 ==> r.is_ok(),
                    r matches Err(error) ==> step_fits(old(inner)@, InitStep::Halt(error)),
                    exists|outcomes: Seq<CallOutcome>|
                        {
                            &&& is_run(old(inner)@, outcomes)
                            &&& !is_call(#[trigger] protocol_state(old(inner)@, outcomes))
                            &&& r == result_of(protocol_state(old(inner)@, outcomes))
                        },
                {
                    inner.init_drivers()
                }
        )
    }

    /// Hands each registered descriptor to `f`, in registration order, and
    /// collects what `f` makes of them. The registry is left as it was.
    pub fn for_each_descriptor<R, F: Fn(&DeviceDriverDescriptor<D, C>) -> R>(
        &mut self,
        f: F,
    ) -> (made: Vec<R>)
        requires
            old(self).wf(),
            callable_on(f, old(self)@),
        ensures
            final(self).wf(),
            final(self)@ == old(self)@,
            made_of(f, old(self)@, made@),
    {
        self.inner.lock(
            |inner: &mut DriverManagerInner<D, C>| -> (made: Vec<R>)
                requires
                    old(inner).wf(),
                    callable_on(f, old(inner)@),
                ensures
                    *final(inner) == *old(inner),
                    made_of(f, old(inner)@, made@),
                {
                    inner.for_each_descriptor(f)
                }
        )
    }

    /// Enumerates all registered device drivers: the descriptors in
    /// registration order, each with its ordinal, counted from 1. The
    /// registry is left as it was.
    pub fn enumerate(&mut self) -> (listing: Vec<(usize, DeviceDriverDescriptor<D, C>)>)
        requires
            old(self).wf(),
        ensures
            final(self).wf(),
            final(self)@ == old(self)@,
            listing@ == enumeration(old(self)@),
    {
        self.inner.lock(
            |inner: &mut DriverManagerInner<D, C>| -> (listing: Vec<
                (usize, DeviceDriverDescriptor<D, C>),
            >)
                requires
                    old(inner).wf(),
                ensures
                    *final(inner) == *old(inner),
                    listing@ == enumeration(old(inner)@),
                {
                    inner.enumerate()
                }
        )
    }
}

/// Whether `f` may be called on each of `descriptors`.
pub open spec fn callable_on<D, C, R, F: Fn(&DeviceDriverDescriptor<D, C>) -> R>(
    f: F,
    descriptors: Seq<DeviceDriverDescriptor<D, C>>,
) -> bool {
    forall|i: int|
        0 <= i < descriptors.len() ==> call_requires(f, (&#[trigger] descriptors[i],))
}

/// Whether `made` is what `f` makes of `descriptors`, one by one and in their
/// order.
pub open spec fn made_of<D, C, R, F: Fn(&DeviceDriverDescriptor<D, C>) -> R>(
    f: F,
    descriptors: Seq<DeviceDriverDescriptor<D, C>>,
    made: Seq<R>,
) -> bool {
    &&& made.len() == descriptors.len()
    &&& forall|i: int|
        0 <= i < descriptors.len() ==> call_ensures(f, (&descriptors[i],), #[trigger] made[i])
}

/// The listing of `descriptors`: each in its place, with its ordinal, counted
/// from 1.
pub open spec fn enumeration<D, C>(descriptors: Seq<DeviceDriverDescriptor<D, C>>) -> Seq<
    (usize, DeviceDriverDescriptor<D, C>),
> {
    Seq::new(descriptors.len(), |i: int| ((i + 1) as usize, descriptors[i]))
}

/// Registration is strictly order-preserving: a driver registered after
/// another stands behind it, and the listing gives both in that order, each
/// under the ordinal of its place.
pub proof fn lemma_registration_keeps_order<D, C>(
    registry: Seq<DeviceDriverDescriptor<D, C>>,
    first: DeviceDriverDescriptor<D, C>,
    second: DeviceDriverDescriptor<D, C>,
)
    requires
        registry.len() + 2 <= NUM_DRIVERS,
    ensures
        enumeration(registry.push(first).push(second)) == enumeration(registry).push(
            ((registry.len() + 1) as usize, first),
        ).push(((registry.len() + 2) as usize, second)),
        enumeration(Seq::<DeviceDriverDescriptor<D, C>>::empty().push(first).push(second)) == seq![
            (1usize, first),
            (2usize, second),
        ],
{
    assert(enumeration(registry.push(first).push(second)) =~= enumeration(registry).push(
        ((registry.len() + 1) as usize, first),
    ).push(((registry.len() + 2) as usize, second)));
    assert(enumeration(Seq::<DeviceDriverDescriptor<D, C>>::empty().push(first).push(second))
        =~= seq![(1usize, first), (2usize, second)]);
}

/// A call that fails halts the protocol, at the slot and the stage of that
/// call and with its message.
pub proof fn lemma_failure_halts<D: DeviceDriver + Copy, C: DeviceDriverPostInitCallback + Copy>(
    descriptors: Seq<DeviceDriverDescriptor<D, C>>,
    step: InitStep<D, C>,
    message: &'static str,
)
    requires
        is_call(step),
    ensures
        step_after(descriptors, step, Err(message)) matches InitStep::Halt(error) && {
            &&& error.message == message
            &&& step matches InitStep::Init(index) ==> error.index == index && error.stage
                == InitStage::DriverInit
            &&& step matches InitStep::PostInit(index) ==> error.index == index && error.stage
                == InitStage::PostInit
        },
{
}

/// Once the protocol has ended, nothing moves it: whatever answers follow,
/// it asks for no further call. So after a failed call no later driver's
/// `init` and no post-init callback is asked for.
pub proof fn lemma_end_is_final<D: DeviceDriver + Copy, C: DeviceDriverPostInitCallback + Copy>(
    descriptors: Seq<DeviceDriverDescriptor<D, C>>,
    outcomes: Seq<CallOutcome>,
    k: int,
)
    requires
        0 <= k <= outcomes.len(),
        !is_call(protocol_state(descriptors, outcomes.take(k))),
    ensures
        protocol_state(descriptors, outcomes) == protocol_state(descriptors, outcomes.take(k)),
    decreases outcomes.len() - k,
{
    if k == outcomes.len() {
        assert(outcomes.take(k) == outcomes);
    } else {
        let shorter = outcomes.drop_last();
        assert(shorter.take(k) == outcomes.take(k));
        lemma_end_is_final(descriptors, shorter, k);
    }
}

/// In a run of the protocol a failure is the last answer: the run halts on
/// it, with its message, and every answer before it was a success. A run
/// that has not halted has seen successes only.
pub proof fn lemma_failure_is_last<D: DeviceDriver + Copy, C: DeviceDriverPostInitCallback + Copy>(
    descriptors: Seq<DeviceDriverDescriptor<D, C>>,
    outcomes: Seq<CallOutcome>,
)
    requires
        is_run(descriptors, outcomes),
    ensures
        protocol_state(descriptors, outcomes) matches InitStep::Halt(error) ==> {
            &&& outcomes.len() > 0
            &&& outcomes.last() == Err::<(), &'static str>(error.message)
            &&& forall|k: int| 0 <= k < outcomes.len() - 1 ==> (#[trigger] outcomes[k]).is_ok()
        },
        !(protocol_state(descriptors, outcomes) is Halt) ==> forall|k: int|
            0 <= k < outcomes.len() ==> (#[trigger] outcomes[k]).is_ok(),
    decreases outcomes.len(),
{
    if outcomes.len() > 0 {
        let before = outcomes.drop_last();
        assert(outcomes.take(before.len() as int) == before);
        assert forall|k: int| 0 <= k < before.len() implies answers(
            descriptors,
            #[trigger] protocol_state(descriptors, before.take(k)),
            before[k],
        ) by {
            assert(before.take(k) == outcomes.take(k));
        }
        lemma_failure_is_last(descriptors, before);
        assert(answers(descriptors, protocol_state(descriptors, before), outcomes.last()));
        assert forall|k: int| 0 <= k < outcomes.len() - 1 implies (#[trigger] outcomes[k]).is_ok() by {
            assert(outcomes[k] == before[k]);
        }
    }
}

/// The calls come in registration order: after a call on a slot the protocol
/// asks for that slot's post-init callback, where the call was the driver's
/// `init`, or for the `init` of the next slot, and for nothing else.
pub proof fn lemma_calls_in_order<D: DeviceDriver + Copy, C: DeviceDriverPostInitCallback + Copy>(
    descriptors: Seq<DeviceDriverDescriptor<D, C>>,
    step: InitStep<D, C>,
    outcome: CallOutcome,
)
    requires
        descriptors.len() <= NUM_DRIVERS,
        is_call(step),
    ensures
        step_after(descriptors, step, outcome) matches InitStep::PostInit(next) ==> step
            == InitStep::<D, C>::Init(next),
        step_after(descriptors, step, outcome) matches InitStep::Init(next) ==> {
            ||| step matches InitStep::Init(index) && next == index + 1
            ||| step matches InitStep::PostInit(index) && next == index + 1
        },
{
}

} // verus!
