//! Lifecycle, request dispatch and payload marshaling for system abilities:
//! services that a central manager loads, starts, idles and stops on demand
//! and that answer remote calls identified by a numeric operation code.
//!
//! * [`wire`] defines the layout of a payload as mathematics, and proves
//!   that reading inverts writing.
//! * [`parcel`] is the payload itself: a byte buffer with a read and a
//!   write cursor.
//! * [`reason`] holds the record that says why a lifecycle transition
//!   happened, and its layout.
//! * [`lifecycle`] is the state machine of one service instance.
//! * [`remote`] names the two ends of a call: the dispatch target and the
//!   channel of a proxy.
//! * [`ability`], [`wrapper`] and [`exts`] bind a service to its id: the
//!   callbacks it implements, the handle through which it acts on its own
//!   registration, and the bridge through which the runtime drives it.
//!   What the bridge hands to a service, and what the service may make of
//!   it, is stated over a relation that each service gives of itself; the
//!   bridge and the proxies are generic over the service and the channel,
//!   so that a caller who knows them knows what a call gives.
//! * [`safwk`] is the small form of the binding, with a start and a stop
//!   callback only.
//! * [`sa_test`], [`rust_sa_test`], [`audio_rust_ipc`], [`audio`],
//!   [`listen`] and [`audio_rust_sa`] are services built on the above, with
//!   their stubs and proxies.
//!
//! Everything here has one owner at a time. A host that delivers events
//! from several threads keeps each service behind one lock and calls in
//! with the lock held; no function of this library blocks or waits.

pub mod status;
pub mod wire;
pub mod parcel;
pub mod reason;
pub mod lifecycle;
pub mod remote;
pub mod wrapper;
pub mod ability;
pub mod exts;
pub mod safwk;
pub mod sa_test;
pub mod rust_sa_test;
pub mod audio_rust_ipc;
pub mod audio;
pub mod listen;
pub mod audio_rust_sa;
