//! The connection: the root object of a host application, the bridges that
//! were put aside under a key, and the one teardown of the communication
//! subsystem that every successful initialisation owes.
//!
//! Opening a connection needs the host three times. [`RSCom::new`] hands out
//! a [`Startup`], which asks for the subsystem to be initialised; then comes
//! a [`Lookup`], which asks for the application's class; then a [`Create`],
//! which asks for an instance of it. A step that fails ends the opening:
//! the steps after it are never asked for.

use vstd::hash_map::StringHashMap;
use vstd::prelude::*;
use vstd::string::*;

use crate::com_errors::{ComError, ComErrorView};
pub use crate::idispatchw::IDispatchW;
pub use crate::variant::RSVariant as Variant;

verus! {

/// The threading model that the subsystem is initialised with: one
/// apartment, owned by the calling thread.
pub const COINIT_APARTMENTTHREADED: i32 = 2;

/// The execution context of a server that runs inside the calling process.
pub const CLSCTX_INPROC_SERVER: u32 = 1;

/// The execution context of a server that runs in a process of its own.
pub const CLSCTX_LOCAL_SERVER: u32 = 4;

/// The apartment threading model as the `windows` crate holds it, in
/// `Win32::System::Com::COINIT_APARTMENTTHREADED`: its source gives it the
/// value 2.
#[verifier::external_body]
fn coinit_apartmentthreaded() -> (coinit: i32)
    ensures
        coinit == COINIT_APARTMENTTHREADED,
{
    windows::Win32::System::Com::COINIT_APARTMENTTHREADED.0
}

/// The context of an in-process server as the `windows` crate holds it, in
/// `Win32::System::Com::CLSCTX_INPROC_SERVER`: its source gives it the
/// value 1.
#[verifier::external_body]
fn clsctx_inproc_server() -> (clsctx: u32)
    ensures
        clsctx == CLSCTX_INPROC_SERVER,
{
    windows::Win32::System::Com::CLSCTX_INPROC_SERVER.0
}

/// The context of a local server as the `windows` crate holds it, in
/// `Win32::System::Com::CLSCTX_LOCAL_SERVER`: its source gives it the
/// value 4.
#[verifier::external_body]
fn clsctx_local_server() -> (clsctx: u32)
    ensures
        clsctx == CLSCTX_LOCAL_SERVER,
{
    windows::Win32::System::Com::CLSCTX_LOCAL_SERVER.0
}

/// The teardown that an initialised subsystem is owed. There is one for each
/// successful initialisation; whoever holds it has to tear the subsystem
/// down, once, on the thread that initialised it.
#[derive(Debug)]
pub struct DeferCoUninitialize {
    owed: (),
}

/// An opening that failed after the subsystem was initialised.
#[derive(Debug)]
pub struct Abort {
    /// Why the opening failed.
    pub error: ComError,
    /// The teardown that is still owed.
    pub guard: DeferCoUninitialize,
}

/// An opening that waits for the subsystem to be initialised.
pub struct Startup {
    prog_id: String,
    clsctx: u32,
}

/// An opening that waits for the class of its application.
pub struct Lookup {
    prog_id: String,
    clsctx: u32,
    guard: DeferCoUninitialize,
}

/// An opening that waits for an instance of its application.
pub struct Create {
    clsid: u128,
    clsctx: u32,
    guard: DeferCoUninitialize,
}

impl Startup {
    /// The name of the application that is being opened.
    pub closed spec fn spec_prog_id(&self) -> Seq<char> {
        self.prog_id@
    }

    /// The execution context in which the application is to run.
    pub closed spec fn spec_clsctx(&self) -> u32 {
        self.clsctx
    }

    /// The threading model to initialise the subsystem with.
    pub fn coinit(&self) -> (coinit: i32)
        ensures
            coinit == COINIT_APARTMENTTHREADED,
    {
        coinit_apartmentthreaded()
    }

    /// The opening after the initialisation. Where that failed, the opening
    /// ends here: nothing is owed, and the host is asked for nothing more.
    pub fn initialized(self, ok: bool) -> (out: Result<Lookup, ComError>)
        ensures
            ok ==> (out matches Ok(lookup) && lookup.spec_prog_id() == self.spec_prog_id()
                && lookup.spec_clsctx() == self.spec_clsctx()),
            !ok ==> out == Err::<Lookup, ComError>(ComError::NotInitialize()),
    {
        if ok {
            Ok(
                Lookup {
                    prog_id: self.prog_id,
                    clsctx: self.clsctx,
                    guard: DeferCoUninitialize { owed: () },
                },
            )
        } else {
            Err(ComError::NotInitialize())
        }
    }
}

impl Lookup {
    /// The name of the application that is being opened.
    pub closed spec fn spec_prog_id(&self) -> Seq<char> {
        self.prog_id@
    }

    /// The execution context in which the application is to run.
    pub closed spec fn spec_clsctx(&self) -> u32 {
        self.clsctx
    }

    /// The name to look up in the host's registry of applications.
    pub fn prog_id(&self) -> (name: &str)
        ensures
            name@ == self.spec_prog_id(),
    {
        self.prog_id.as_str()
    }

    /// The opening after the look-up. Where the host knows no application
    /// of that name, the opening ends here: the teardown is handed back,
    /// and the host is not asked for an instance.
    pub fn resolved(self, clsid: Option<u128>) -> (out: Result<Create, Abort>)
        ensures
            match clsid {
                Some(id) => out matches Ok(create) && create.spec_clsid() == id
                    && create.spec_clsctx() == self.spec_clsctx(),
                None => out matches Err(abort) && abort.error == ComError::ComNotFound(),
            },
    {
        match clsid {
            Some(id) => Ok(Create { clsid: id, clsctx: self.clsctx, guard: self.guard }),
            None => Err(Abort { error: ComError::ComNotFound(), guard: self.guard }),
        }
    }
}

impl Create {
    /// The class of which an instance is wanted.
    pub closed spec fn spec_clsid(&self) -> u128 {
        self.clsid
    }

    /// The execution context in which the instance is to run.
    pub closed spec fn spec_clsctx(&self) -> u32 {
        self.clsctx
    }

    /// The class of which an instance is wanted.
    #[verifier::when_used_as_spec(spec_clsid)]
    pub fn clsid(&self) -> (clsid: u128)
        ensures
            clsid == self.spec_clsid(),
    {
        self.clsid
    }

    /// The execution context in which the instance is to run.
    #[verifier::when_used_as_spec(spec_clsctx)]
    pub fn clsctx(&self) -> (clsctx: u32)
        ensures
            clsctx == self.spec_clsctx(),
    {
        self.clsctx
    }

    /// The connection, given the instance that the host created, or the
    /// end of the opening, given the host's account of why it created none;
    /// the teardown is then handed back.
    pub fn created<H>(self, instance: Result<H, String>) -> (out: Result<RSCom<H>, Abort>)
        ensures
            match instance {
                Ok(handle) => out matches Ok(com) && com@ == (ComView {
                    api: handle,
                    registry: Map::<Seq<char>, IDispatchW<H>>::empty(),
                    open: true,
                }),
                Err(reason) => out matches Err(abort) && abort.error@ == ComErrorView::ComInstance(
                    reason@,
                ),
            },
    {
        match instance {
            Ok(handle) => Ok(
                RSCom { api: IDispatchW(handle), api_map: StringHashMap::new(), guard: Some(self.guard) },
            ),
            Err(reason) => Err(Abort { error: ComError::ComInstance(reason), guard: self.guard }),
        }
    }
}

/// A connection to a host application.
#[verifier::reject_recursive_types(H)]
pub struct RSCom<H> {
    api: IDispatchW<H>,
    api_map: StringHashMap<IDispatchW<H>>,
    guard: Option<DeferCoUninitialize>,
}

/// What a connection holds.
#[verifier::reject_recursive_types(H)]
pub ghost struct ComView<H> {
    /// The handle of the application's root object.
    pub api: H,
    /// The bridges that were put aside, each under its key.
    pub registry: Map<Seq<char>, IDispatchW<H>>,
    /// Whether the subsystem is still to be torn down.
    pub open: bool,
}

impl<H> View for RSCom<H> {
    type V = ComView<H>;

    closed spec fn view(&self) -> ComView<H> {
        ComView { api: self.api.0, registry: self.api_map@, open: self.guard is Some }
    }
}

/// The registry after a bridge was offered under a key, and whether it was
/// taken: a key that is in use keeps its bridge.
pub open spec fn registry_save<H>(
    registry: Map<Seq<char>, IDispatchW<H>>,
    key: Seq<char>,
    bridge: IDispatchW<H>,
) -> (Map<Seq<char>, IDispatchW<H>>, Result<(), ComErrorView>) {
    if registry.contains_key(key) {
        (registry, Err(ComErrorView::PointerAlreadyMapped))
    } else {
        (registry.insert(key, bridge), Ok(()))
    }
}

/// The bridge that is registered under a key.
pub open spec fn registry_lookup<H>(registry: Map<Seq<char>, IDispatchW<H>>, key: Seq<char>) -> Result<
    IDispatchW<H>,
    ComErrorView,
> {
    if registry.contains_key(key) {
        Ok(registry[key])
    } else {
        Err(ComErrorView::NoInterface("Interface is not mapped!"@))
    }
}

/// The registry after the bridge under a key was asked to leave, and whether
/// there was one.
pub open spec fn registry_remove<H>(registry: Map<Seq<char>, IDispatchW<H>>, key: Seq<char>) -> (
    Map<Seq<char>, IDispatchW<H>>,
    Result<(), ComErrorView>,
) {
    if registry.contains_key(key) {
        (registry.remove(key), Ok(()))
    } else {
        (registry, Err(ComErrorView::NoInterface("Interface is not mapped!"@)))
    }
}

/// A result with its error as a view.
pub open spec fn seen<T>(out: Result<T, ComError>) -> Result<T, ComErrorView> {
    match out {
        Ok(value) => Ok(value),
        Err(e) => Err(e@),
    }
}

impl<H> RSCom<H> {
    /// Begins to open a connection to the application `prog_id`, which is
    /// to run inside the calling process.
    pub fn new(prog_id: &str) -> (startup: Startup)
        ensures
            startup.spec_prog_id() == prog_id@,
            startup.spec_clsctx() == CLSCTX_INPROC_SERVER,
    {
        Startup { prog_id: String::from_str(prog_id), clsctx: clsctx_inproc_server() }
    }

    /// Begins to open a connection to the application `com_name`, which is
    /// to run in a process of its own.
    pub fn init(com_name: &str) -> (startup: Startup)
        ensures
            startup.spec_prog_id() == com_name@,
            startup.spec_clsctx() == CLSCTX_LOCAL_SERVER,
    {
        Startup { prog_id: String::from_str(com_name), clsctx: clsctx_local_server() }
    }

    /// Whether the connection is open: the subsystem is still to be torn
    /// down.
    pub fn is_open(&self) -> (open: bool)
        ensures
            open == self@.open,
    {
        self.guard.is_some()
    }

    /// The bridge to the application's root object.
    pub fn api(&self) -> (api: &IDispatchW<H>)
        requires
            self@.open,
        ensures
            api.0 == self@.api,
    {
        &self.api
    }

    /// Puts a bridge aside under `key`. A key that is in use keeps its
    /// bridge, and the one that was offered is dropped.
    pub fn save_idispatch(&mut self, key: String, idispatch: IDispatchW<H>) -> (out: Result<
        (),
        ComError,
    >)
        requires
            old(self)@.open,
        ensures
            (final(self)@.registry, seen(out)) == registry_save(
                old(self)@.registry,
                key@,
                idispatch,
            ),
            final(self)@.api == old(self)@.api,
            final(self)@.open,
    {
        if self.api_map.contains_key(key.as_str()) {
            Err(ComError::PointerAlreadyMapped())
        } else {
            self.api_map.insert(key, idispatch);
            Ok(())
        }
    }

    /// The bridge that was put aside under `key`.
    pub fn get_map_idispatch(&mut self, key: String) -> (out: Result<&IDispatchW<H>, ComError>)
        requires
            old(self)@.open,
        ensures
            match registry_lookup(old(self)@.registry, key@) {
                Ok(bridge) => out matches Ok(found) && *found == bridge,
                Err(e) => out matches Err(f) && f@ == e,
            },
            final(self)@ == old(self)@,
    {
        match self.api_map.get(key.as_str()) {
            Some(bridge) => Ok(bridge),
            None => Err(ComError::NoInterface(String::from_str("Interface is not mapped!"))),
        }
    }

    /// Drops the bridge that was put aside under `key`.
    pub fn remove_idispatch(&mut self, key: String) -> (out: Result<(), ComError>)
        requires
            old(self)@.open,
        ensures
            (final(self)@.registry, seen(out)) == registry_remove(old(self)@.registry, key@),
            final(self)@.api == old(self)@.api,
            final(self)@.open,
    {
        if self.api_map.contains_key(key.as_str()) {
            self.api_map.remove(key.as_str());
            Ok(())
        } else {
            Err(ComError::NoInterface(String::from_str("Interface is not mapped!")))
        }
    }

    /// Closes the connection. The first call hands out the teardown that
    /// is owed; a later call finds the connection closed and hands out
    /// nothing, so the subsystem is torn down once.
    pub fn close_api(&mut self) -> (owed: Option<DeferCoUninitialize>)
        ensures
            owed is Some == old(self)@.open,
            !final(self)@.open,
            final(self)@.api == old(self)@.api,
            final(self)@.registry == old(self)@.registry,
    {
        self.guard.take()
    }
}

/// A bridge that was put aside under a fresh key is found under it, as it
/// was offered.
pub proof fn lemma_saved_bridge_is_found<H>(
    registry: Map<Seq<char>, IDispatchW<H>>,
    key: Seq<char>,
    bridge: IDispatchW<H>,
)
    requires
        !registry.contains_key(key),
    ensures
        registry_save(registry, key, bridge).1 == Ok::<(), ComErrorView>(()),
        registry_lookup(registry_save(registry, key, bridge).0, key) == Ok::<
            IDispatchW<H>,
            ComErrorView,
        >(bridge),
{
}

/// A second bridge under a key that is in use is refused, and the first one
/// stays where it was.
pub proof fn lemma_second_save_is_refused<H>(
    registry: Map<Seq<char>, IDispatchW<H>>,
    key: Seq<char>,
    first: IDispatchW<H>,
    second: IDispatchW<H>,
)
    requires
        !registry.contains_key(key),
    ensures
        ({
            let after = registry_save(registry, key, first).0;
            &&& registry_save(after, key, second) == (
                after,
                Err::<(), ComErrorView>(ComErrorView::PointerAlreadyMapped),
            )
            &&& registry_lookup(registry_save(after, key, second).0, key) == Ok::<
                IDispatchW<H>,
                ComErrorView,
            >(first)
        }),
{
}

} // verus!
