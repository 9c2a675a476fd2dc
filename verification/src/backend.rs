//! The value-level model of one native context provider.
//!
//! This layer treats each native backend (GLX, EGL, OsMesa) as an opaque
//! provider of a small capability set: create, make-current, is-current,
//! swap-buffers, query-proc-address, report-api, report-pixel-format,
//! raw-handle. `NativeContext` is the observable state of one provider
//! instance; `NativeConfig` describes what a backend would produce on a
//! creation call, and `BackendSpec` whether that call succeeds at all. The
//! dispatch logic above is verified against exactly this capability set.

use vstd::prelude::*;

use crate::types::{Api, ContextError, CreationError, PixelFormat};

verus! {

/// What a backend produces when a creation call succeeds: the API and pixel
/// format the new context will report, its native handle, the addresses it
/// resolves GL symbols to, and any failure its operations would report.
pub struct NativeConfig {
    pub api: Api,
    pub pixel_format: PixelFormat,
    pub handle: usize,
    /// GL symbol name to function address; a name that is absent resolves to
    /// the null address.
    pub proc_table: Vec<(String, usize)>,
    /// The failure, if any, the provider reports on every make-current and
    /// swap-buffers call for this context (a lost context, an OS error).
    pub op_error: Option<ContextError>,
}

/// An exact copy of a symbol table.
pub fn clone_proc_table(table: &Vec<(String, usize)>) -> (r: Vec<(String, usize)>)
    ensures
        r@ == table@,
{
    let mut r: Vec<(String, usize)> = Vec::new();
    let mut i: usize = 0;
    while i < table.len()
        invariant
            i <= table.len(),
            r@ == table@.subrange(0, i as int),
        decreases table.len() - i,
    {
        let entry = &table[i];
        r.push((entry.0.clone(), entry.1));
        i = i + 1;
    }
    proof {
        assert(r@ =~= table@);
    }
    r
}

/// An exact copy of a provider's configured operation failure.
pub fn duplicate_op_error(e: &Option<ContextError>) -> (r: Option<ContextError>)
    ensures
        r == *e,
{
    match e {
        Some(err) => Some(err.duplicate()),
        None => None,
    }
}

/// How one backend answers a creation call: the context it would produce, or
/// the error it reports instead.
pub struct BackendSpec {
    pub outcome: Result<NativeConfig, CreationError>,
}

/// The address a symbol table resolves a name to: the address of the first
/// entry whose name matches, or the null address when none does.
pub open spec fn lookup(table: Seq<(String, usize)>, name: Seq<char>) -> usize
    decreases table.len(),
{
    if table.len() == 0 {
        0usize
    } else if table[0].0@ == name {
        table[0].1
    } else {
        lookup(table.skip(1), name)
    }
}

/// What a provider's make-current call does: a failing context reports its
/// failure unreinterpreted and stays untouched; any other becomes the calling
/// thread's current one.
pub open spec fn make_current_post(
    pre: NativeContext,
    post: NativeContext,
    r: Result<(), ContextError>,
) -> bool {
    match pre.op_error {
        Some(err) => {
            &&& r matches Err(e) && e == err
            &&& post == pre
        },
        None => {
            &&& r is Ok
            &&& post == (NativeContext { current: true, ..pre })
        },
    }
}

/// What a provider's swap-buffers call does: a failing context reports its
/// failure unreinterpreted and stays untouched; any other performs exactly
/// one more swap.
pub open spec fn swap_buffers_post(
    pre: NativeContext,
    post: NativeContext,
    r: Result<(), ContextError>,
) -> bool {
    match pre.op_error {
        Some(err) => {
            &&& r matches Err(e) && e == err
            &&& post == pre
        },
        None => {
            &&& r is Ok
            &&& post == (NativeContext { swap_count: (pre.swap_count + 1) as u64, ..pre })
        },
    }
}

/// The observable state of one native context held by a provider.
pub struct NativeContext {
    pub api: Api,
    pub pixel_format: PixelFormat,
    pub handle: usize,
    pub proc_table: Vec<(String, usize)>,
    /// The failure, if any, the provider reports on every make-current and
    /// swap-buffers call.
    pub op_error: Option<ContextError>,
    /// Whether this context is the calling thread's current one.
    pub current: bool,
    /// How many buffer swaps the provider has performed for this context.
    pub swap_count: u64,
    /// The native handle of the context this one shares a GL object
    /// namespace with, recorded at creation.
    pub shared_with: Option<usize>,
}

impl NativeContext {
    /// The state a provider hands back from a successful creation call with
    /// description `config` and sharing target `shared`: not current, no
    /// swaps performed, everything else as described.
    pub open spec fn fresh(self, config: NativeConfig, shared: Option<usize>) -> bool {
        &&& self.api == config.api
        &&& self.pixel_format == config.pixel_format
        &&& self.handle == config.handle
        &&& self.proc_table@ == config.proc_table@
        &&& self.op_error == config.op_error
        &&& self.current == false
        &&& self.swap_count == 0
        &&& self.shared_with == shared
    }

    /// Creation against a backend: the error the backend reports, or a fresh
    /// context as the backend describes it, sharing with `shared`.
    pub fn create(backend: &BackendSpec, shared: Option<usize>) -> (r: Result<
        NativeContext,
        CreationError,
    >)
        ensures
            match backend.outcome {
                Ok(config) => r matches Ok(n) && n.fresh(config, shared),
                Err(e) => r matches Err(x) && x == e,
            },
    {
        match &backend.outcome {
            Ok(config) => Ok(
                NativeContext {
                    api: config.api,
                    pixel_format: config.pixel_format,
                    handle: config.handle,
                    proc_table: clone_proc_table(&config.proc_table),
                    op_error: duplicate_op_error(&config.op_error),
                    current: false,
                    swap_count: 0,
                    shared_with: shared,
                },
            ),
            Err(e) => Err(e.duplicate()),
        }
    }

    /// Make this context the calling thread's current one. A failing context
    /// reports its failure unreinterpreted and stays untouched.
    pub fn make_current(&mut self) -> (r: Result<(), ContextError>)
        ensures
            make_current_post(*old(self), *final(self), r),
    {
        match &self.op_error {
            Some(err) => Err(err.duplicate()),
            None => {
                self.current = true;
                Ok(())
            },
        }
    }

    /// Whether this context is the calling thread's current one.
    pub fn is_current(&self) -> (r: bool)
        ensures
            r == self.current,
    {
        self.current
    }

    /// The address of the GL symbol `addr`, or the null address when the
    /// provider does not export it.
    pub fn get_proc_address(&self, addr: &str) -> (r: usize)
        ensures
            r == lookup(self.proc_table@, addr@),
    {
        let name = addr.to_owned();
        let n = self.proc_table.len();
        let mut i: usize = 0;
        proof {
            assert(self.proc_table@.skip(0) =~= self.proc_table@);
        }
        while i < n
            invariant
                i <= n,
                n == self.proc_table.len(),
                name@ == addr@,
                lookup(self.proc_table@, addr@) == lookup(self.proc_table@.skip(i as int), addr@),
            decreases n - i,
        {
            let entry = &self.proc_table[i];
            if entry.0 == name {
                proof {
                    assert(self.proc_table@.skip(i as int)[0] == self.proc_table@[i as int]);
                }
                return entry.1;
            }
            proof {
                assert(self.proc_table@.skip(i as int).skip(1) =~= self.proc_table@.skip(
                    i as int + 1,
                ));
            }
            i = i + 1;
        }
        proof {
            assert(self.proc_table@.skip(i as int).len() == 0);
        }
        0
    }

    /// Swap the front and back buffers. A failing context reports its
    /// failure unreinterpreted and stays untouched.
    pub fn swap_buffers(&mut self) -> (r: Result<(), ContextError>)
        requires
            old(self).swap_count < u64::MAX,
        ensures
            swap_buffers_post(*old(self), *final(self), r),
    {
        match &self.op_error {
            Some(err) => Err(err.duplicate()),
            None => {
                self.swap_count = self.swap_count + 1;
                Ok(())
            },
        }
    }

    /// The API family this context exposes.
    pub fn get_api(&self) -> (r: Api)
        ensures
            r == self.api,
    {
        self.api
    }

    /// The pixel format the provider selected for this context.
    pub fn get_pixel_format(&self) -> (r: PixelFormat)
        ensures
            r == self.pixel_format,
    {
        self.pixel_format
    }

    /// The backend-specific native handle of this context.
    pub fn raw_handle(&self) -> (r: usize)
        ensures
            r == self.handle,
    {
        self.handle
    }
}

} // verus!
