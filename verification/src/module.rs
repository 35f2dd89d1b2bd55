//! The module loader: what loading a plugin library must find, and how the
//! loaded library is shared and unloaded exactly once.

use vstd::prelude::*;

verus! {

/// Why a plugin library could not be loaded.
#[derive(Debug, Clone, Copy, PartialEq, Eq, Structural)]
pub enum ModuleError {
    /// The shared library could not be opened.
    MissingLibrary,
    /// The library does not export `GetPluginFactory`.
    MissingFactorySymbol,
    /// `GetPluginFactory` returned a null pointer.
    NullFactory,
}

/// Which of the three entry points an opened library exports.
#[derive(Debug, Clone, Copy, PartialEq, Eq, Structural)]
pub struct Symbols {
    pub init_dll: bool,
    pub exit_dll: bool,
    pub get_plugin_factory: bool,
}

/// What is left to do with a library whose last holder has gone.
#[derive(Debug, Clone, Copy, PartialEq, Eq, Structural)]
pub enum Unload {
    /// Other holders remain, or the library was unloaded before.
    Keep,
    /// Close the library.
    Close,
    /// Call `ExitDll`, then close the library.
    ExitAndClose,
}

/// A loaded plugin library and the number of its holders: the loader
/// itself, and every plugin instance made from it.
#[derive(Debug, Clone, Copy, PartialEq, Eq, Structural)]
pub struct Module {
    pub symbols: Symbols,
    pub references: usize,
}

impl Module {
    /// The outcome of loading: `library` is what opening the shared library
    /// found, `None` if it could not be opened.
    pub open spec fn spec_new(library: Option<Symbols>) -> Result<Module, ModuleError> {
        match library {
            None => Err(ModuleError::MissingLibrary),
            Some(symbols) => if symbols.get_plugin_factory {
                Ok(Module { symbols, references: 1 })
            } else {
                Err(ModuleError::MissingFactorySymbol)
            },
        }
    }

    /// Decides whether an opened library is a plugin module. On success the
    /// loader holds the one reference.
    pub fn new(library: Option<Symbols>) -> (module: Result<Module, ModuleError>)
        ensures
            module == Module::spec_new(library),
    {
        match library {
            None => Err(ModuleError::MissingLibrary),
            Some(symbols) => if symbols.get_plugin_factory {
                Ok(Module { symbols, references: 1 })
            } else {
                Err(ModuleError::MissingFactorySymbol)
            },
        }
    }

    /// Whether `InitDll` is to be called after loading: only if the library
    /// exports it.
    pub fn calls_init(&self) -> (yes: bool)
        ensures
            yes == self.symbols.init_dll,
    {
        self.symbols.init_dll
    }

    /// Whether the library is still loaded.
    pub open spec fn spec_is_loaded(self) -> bool {
        self.references > 0
    }

    pub fn is_loaded(&self) -> (yes: bool)
        ensures
            yes == self.spec_is_loaded(),
    {
        self.references > 0
    }

    /// The factory that `GetPluginFactory` returned at `address`, or the
    /// error for a null pointer.
    pub fn get_factory(&self, address: usize) -> (factory: Result<usize, ModuleError>)
        ensures
            factory == if address == 0 {
                Err::<usize, ModuleError>(ModuleError::NullFactory)
            } else {
                Ok::<usize, ModuleError>(address)
            },
    {
        if address == 0 {
            Err(ModuleError::NullFactory)
        } else {
            Ok(address)
        }
    }

    pub open spec fn spec_acquire(self) -> Module {
        if 0 < self.references < usize::MAX {
            Module { references: (self.references + 1) as usize, ..self }
        } else {
            self
        }
    }

    /// Adds a holder. Returns whether it was added: an unloaded library
    /// takes none, and the count does not wrap.
    pub fn acquire(&mut self) -> (added: bool)
        ensures
            *final(self) == old(self).spec_acquire(),
            added == (0 < old(self).references < usize::MAX),
    {
        if 0 < self.references && self.references < usize::MAX {
            self.references = self.references + 1;
            true
        } else {
            false
        }
    }

    pub open spec fn spec_release(self) -> (Module, Unload) {
        if self.references == 0 {
            (self, Unload::Keep)
        } else if self.references > 1 {
            (Module { references: (self.references - 1) as usize, ..self }, Unload::Keep)
        } else if self.symbols.exit_dll {
            (Module { references: 0, ..self }, Unload::ExitAndClose)
        } else {
            (Module { references: 0, ..self }, Unload::Close)
        }
    }

    /// Removes a holder, and says what to do with the library: when the last
    /// holder goes it is unloaded, with `ExitDll` first if it exports one.
    pub fn release(&mut self) -> (unload: Unload)
        ensures
            (*final(self), unload) == old(self).spec_release(),
    {
        if self.references == 0 {
            Unload::Keep
        } else if self.references > 1 {
            self.references = self.references - 1;
            Unload::Keep
        } else {
            self.references = 0;
            if self.symbols.exit_dll {
                Unload::ExitAndClose
            } else {
                Unload::Close
            }
        }
    }
}

/// A holder that comes and goes leaves the module as it was, and the
/// library loaded.
pub proof fn lemma_acquire_release_restores(module: Module)
    requires
        0 < module.references < usize::MAX,
    ensures
        module.spec_acquire().spec_release() == (module, Unload::Keep),
{
}

/// After the one plugin instance of a freshly loaded module is gone, only
/// the loader holds the module; when the loader lets go, the count is zero
/// and the library is unloaded.
pub proof fn lemma_loader_holds_last_reference(symbols: Symbols)
    requires
        symbols.get_plugin_factory,
    ensures
        ({
            let loaded = Module::spec_new(Some(symbols)).unwrap();
            let after_instance = loaded.spec_acquire().spec_release().0;
            let closed = after_instance.spec_release();
            &&& loaded.references == 1
            &&& after_instance.references == 1
            &&& closed.0.references == 0
            &&& closed.1 != Unload::Keep
            &&& (closed.1 == Unload::ExitAndClose) == symbols.exit_dll
        }),
{
}

/// A library is unloaded exactly once: releasing an unloaded module asks
/// for nothing.
pub proof fn lemma_unload_once(module: Module)
    ensures
        module.spec_release().1 != Unload::Keep ==> module.references == 1,
        module.spec_release().1 != Unload::Keep ==> module.spec_release().0.spec_release().1
            == Unload::Keep,
        !module.spec_is_loaded() ==> module.spec_release() == (module, Unload::Keep),
{
}

} // verus!
