//! Driver interfaces.

use vstd::prelude::*;

verus! {

/// What a device driver offers to the driver manager.
pub trait DeviceDriver {
    /// Return a compatibility string for identifying the driver.
    fn compatible(&self) -> &'static str;

    /// Bring up the device. Called once, by the driver manager, before the
    /// device is used.
    fn init(&self) -> (r: Result<(), &'static str>)
        default_ensures
            r.is_ok(),
    {
        Ok(())
    }
}

/// A reference to a driver is a driver: it passes every call on.
impl<T: DeviceDriver + ?Sized> DeviceDriver for &T {
    fn compatible(&self) -> (name: &'static str)
        ensures
            call_ensures(T::compatible, (*self,), name),
    {
        (**self).compatible()
    }

    fn init(&self) -> (r: Result<(), &'static str>)
        ensures
            call_ensures(T::init, (*self,), r),
    {
        (**self).init()
    }
}

/// A reference to a callback is a callback: it passes the call on.
impl<T: DeviceDriverPostInitCallback + ?Sized> DeviceDriverPostInitCallback for &T {
    fn call(&self) -> (r: Result<(), &'static str>)
        ensures
            call_ensures(T::call, (*self,), r),
    {
        (**self).call()
    }
}

/// A step that a descriptor defers until its driver's `init` has succeeded,
/// such as binding the driver as the system console.
pub trait DeviceDriverPostInitCallback {
    /// Run the step.
    fn call(&self) -> Result<(), &'static str>;
}

} // verus!
