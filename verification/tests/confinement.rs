use tracy_gizmos::capture::{TracyCapture, TracyClient};
use tracy_gizmos::nesting::ZoneStack;
use tracy_gizmos::plot::Plot;
use tracy_gizmos::zone::{Zone, ZoneLocation};

/// Implemented once for a type that cannot be sent to another thread and
/// twice for one that can, so that `confined` compiles for the first only.
trait Confined<Marker> {
    fn confined() {}
}

impl<T: ?Sized> Confined<()> for T {}

impl<T: ?Sized + Send> Confined<u8> for T {}

/// Implemented once for a type that cannot be shared between threads and
/// twice for one that can, so that `unshared` compiles for the first only.
trait Unshared<Marker> {
    fn unshared() {}
}

impl<T: ?Sized> Unshared<()> for T {}

impl<T: ?Sized + Sync> Unshared<u8> for T {}

fn shared_and_sent<T: Send + Sync + Copy>() {}

#[test]
fn zone_stays_on_its_thread() {
    <Zone as Confined<_>>::confined();
    <Zone as Unshared<_>>::unshared();
}

#[test]
fn zone_stack_stays_on_its_thread() {
    <ZoneStack as Confined<_>>::confined();
}

#[test]
fn capture_stays_on_its_thread() {
    <TracyClient as Confined<_>>::confined();
    <TracyClient as Unshared<_>>::unshared();
    <TracyCapture as Confined<_>>::confined();
    <TracyCapture as Unshared<_>>::unshared();
}

#[test]
fn locations_and_plots_are_shared_freely() {
    shared_and_sent::<ZoneLocation>();
    shared_and_sent::<Plot>();
}
