//! The registry of plugins: which folders become plugins, under which name
//! each is found, and what an invocation by name is given.

use vstd::prelude::*;
use vstd::hash_map::StringHashMap;
use vstd::string::*;
use crate::plugin_config::{spec_config_of_text, PluginConfig, PluginConfigView};
use crate::plugin_runtime::{spec_input, PluginRuntime};
use crate::text::{debug_text, quote};
use crate::wasm::WasmError;

verus! {

/// Why an invocation by name gave no output.
#[derive(Debug, PartialEq, Eq)]
pub enum InvocationError {
    /// No plugin of that name is registered.
    PluginDoesNotExist,
    /// The engine or the plugin failed; the message says how.
    GenericError(String),
}

/// An invocation error as plain values.
pub enum InvocationErrorView {
    PluginDoesNotExist,
    GenericError(Seq<char>),
}

impl View for InvocationError {
    type V = InvocationErrorView;

    open spec fn view(&self) -> InvocationErrorView {
        match self {
            InvocationError::PluginDoesNotExist => InvocationErrorView::PluginDoesNotExist,
            InvocationError::GenericError(message) => InvocationErrorView::GenericError(message@),
        }
    }
}

/// What `{:?}` prints for an invocation error: the variant's name, and for a
/// generic error its message, quoted, in round brackets.
pub open spec fn spec_error_text(error: InvocationErrorView) -> Seq<char> {
    match error {
        InvocationErrorView::PluginDoesNotExist => "PluginDoesNotExist"@,
        InvocationErrorView::GenericError(message) => "GenericError("@ + debug_text(message) + ")"@,
    }
}

impl InvocationError {
    /// The error as text, in the form that `{:?}` prints.
    pub fn describe(&self) -> (text: String)
        ensures
            text@ == spec_error_text(self@),
    {
        match self {
            InvocationError::PluginDoesNotExist => String::from_str("PluginDoesNotExist"),
            InvocationError::GenericError(message) => {
                let mut text = String::from_str("GenericError(");
                let quoted = quote(message.as_str());
                text.append(quoted.as_str());
                text.append(")");
                text
            },
        }
    }
}

/// Why the registry could not be loaded.
#[derive(Debug, Clone, Copy, PartialEq, Eq, Structural)]
pub enum PluginError {
    /// The plugin folder itself, or an entry of it, could not be read.
    InvalidFolder,
}

/// What was found of `config.toml` in a plugin's folder.
pub enum ConfigFile {
    /// There is no such file.
    Missing,
    /// The file is there and could not be read.
    Unreadable,
    /// The text of the file.
    Text(String),
}

/// What was found of `plugin.wasm` in a plugin's folder; `M` is the engine's
/// compiled module.
pub enum ModuleFile<M> {
    /// There is no such file.
    Missing,
    /// The file is there and was not compiled, since the folder holds no
    /// config file.
    Present,
    /// The file is there and is no module that the engine accepts.
    Invalid(WasmError),
    /// The module, compiled.
    Compiled(M),
}

/// What was found in one folder below the plugin folder.
pub struct PluginFolder<M> {
    pub config: ConfigFile,
    pub module: ModuleFile<M>,
}

/// One entry of the plugin folder.
pub enum FolderEntry<M> {
    /// The entry could not be read.
    Unreadable,
    /// The entry is no folder.
    NotAFolder,
    /// A folder, with what was found in it.
    Folder(PluginFolder<M>),
}

/// A registered plugin: its policy and its compiled module. Neither changes
/// after the plugin is made.
pub struct Plugin<M> {
    pub config: PluginConfig,
    pub wasm: M,
}

/// A plugin as plain values.
pub struct PluginView<M> {
    pub config: PluginConfigView,
    pub wasm: M,
}

impl<M> View for Plugin<M> {
    type V = PluginView<M>;

    open spec fn view(&self) -> PluginView<M> {
        PluginView { config: self.config@, wasm: self.wasm }
    }
}

/// The plugin that a folder holds: both files are there, the config file is
/// a text that describes a policy, and the module compiled. Any other folder
/// holds no plugin.
pub open spec fn spec_plugin_of<M>(folder: PluginFolder<M>) -> Option<PluginView<M>> {
    match (folder.config, folder.module) {
        (ConfigFile::Text(text), ModuleFile::Compiled(wasm)) => match spec_config_of_text(text@) {
            Some(config) => Some(PluginView { config, wasm }),
            None => None,
        },
        _ => None,
    }
}

/// The plugin that an entry of the plugin folder holds, if any.
pub open spec fn spec_plugin_of_entry<M>(entry: FolderEntry<M>) -> Option<PluginView<M>> {
    match entry {
        FolderEntry::Folder(folder) => spec_plugin_of(folder),
        _ => None,
    }
}

/// The registry after the entries were gone through in order: each plugin is
/// entered under its name, and a later plugin replaces an earlier one of the
/// same name.
pub open spec fn spec_register_all<M>(
    plugins: Map<Seq<char>, PluginView<M>>,
    entries: Seq<FolderEntry<M>>,
) -> Map<Seq<char>, PluginView<M>>
    decreases entries.len(),
{
    if entries.len() == 0 {
        plugins
    } else {
        let before = spec_register_all(plugins, entries.drop_last());
        match spec_plugin_of_entry(entries.last()) {
            Some(plugin) => before.insert(plugin.config.name, plugin),
            None => before,
        }
    }
}

/// The number of entries before the first one that could not be read; all
/// of them where each could be read.
pub open spec fn spec_readable_prefix<M>(entries: Seq<FolderEntry<M>>) -> int
    decreases entries.len(),
{
    if entries.len() == 0 {
        0
    } else if entries[0] is Unreadable {
        0
    } else {
        1 + spec_readable_prefix(entries.drop_first())
    }
}

/// The plain values of a plugin that may be missing.
pub open spec fn spec_plugin_view<M>(plugin: Option<Plugin<M>>) -> Option<PluginView<M>> {
    match plugin {
        Some(plugin) => Some(plugin@),
        None => None,
    }
}

impl<M> Plugin<M> {
    /// Makes a plugin of what was found in its folder. A folder that lacks
    /// one of the two files, or whose config file or module is not valid,
    /// gives no plugin.
    pub fn new_from_folder(folder: PluginFolder<M>) -> (plugin: Option<Self>)
        ensures
            spec_plugin_view(plugin) == spec_plugin_of(folder),
            (folder.config is Missing || folder.module is Missing) ==> plugin is None,
    {
        let PluginFolder { config, module } = folder;
        let text = match config {
            ConfigFile::Text(text) => text,
            _ => {
                return None;
            },
        };
        let wasm = match module {
            ModuleFile::Compiled(wasm) => wasm,
            _ => {
                return None;
            },
        };
        match PluginConfig::new_from_str(text.as_str()) {
            Some(config) => Some(Plugin { config, wasm }),
            None => None,
        }
    }

    /// The host state for one run of this plugin on `input`: a copy of the
    /// plugin's policy and the input, and nothing of any earlier run.
    pub fn invoke(&self, input: Vec<(String, String)>) -> (runtime: PluginRuntime)
        ensures
            runtime.config@ == self.config@,
            runtime.input_view() == spec_input(input.deep_view()),
    {
        PluginRuntime::new(self.config.clone(), input)
    }
}

/// What the engine is given for one invocation: the plugin's module and a
/// host state of its own.
pub struct Invocation<'a, M> {
    pub module: &'a M,
    pub runtime: PluginRuntime,
}

/// The plain values of what the engine made of an invocation.
pub open spec fn spec_invocation_result(outcome: Result<String, WasmError>) -> Result<
    Seq<char>,
    InvocationErrorView,
> {
    match outcome {
        Ok(output) => Ok(output@),
        Err(error) => Err(InvocationErrorView::GenericError(error@)),
    }
}

/// The plain values of an output or of the error in its place.
pub open spec fn spec_output_view(output: Result<String, InvocationError>) -> Result<
    Seq<char>,
    InvocationErrorView,
> {
    match output {
        Ok(output) => Ok(output@),
        Err(error) => Err(error@),
    }
}

/// Turns what the engine made of an invocation into what the caller gets:
/// the plugin's output as it is, and any failure of the engine as a generic
/// error with the engine's message.
pub fn invocation_result(outcome: Result<String, WasmError>) -> (output: Result<
    String,
    InvocationError,
>)
    ensures
        spec_output_view(output) == spec_invocation_result(outcome),
{
    match outcome {
        Ok(output) => Ok(output),
        Err(WasmError::GenericError(message)) => Err(InvocationError::GenericError(message)),
    }
}

/// The registry: the plugins that were loaded from the plugin folder, each
/// under its name.
#[verifier::reject_recursive_types(M)]
pub struct PluginManager<M> {
    folder: String,
    plugins: StringHashMap<Plugin<M>>,
}

impl<M> PluginManager<M> {
    /// The path of the plugin folder.
    pub closed spec fn folder_view(&self) -> Seq<char> {
        self.folder@
    }

    /// The registered plugins as plain values, each under the name by which
    /// it is found.
    pub closed spec fn plugins_view(&self) -> Map<Seq<char>, PluginView<M>> {
        self.plugins@.map_values(|plugin: Plugin<M>| plugin@)
    }

    /// Every plugin is registered under the name that its policy gives it.
    #[verifier::type_invariant]
    spec fn named_by_policy(&self) -> bool {
        forall|name: Seq<char>| #[trigger]
            self.plugins@.contains_key(name) ==> self.plugins@[name].config@.name == name
    }

    /// An empty registry for the plugin folder `folder`.
    pub fn new(folder: String) -> (manager: Self)
        ensures
            manager.folder_view() == folder@,
            manager.plugins_view() == Map::<Seq<char>, PluginView<M>>::empty(),
    {
        let manager = PluginManager { folder, plugins: StringHashMap::new() };
        assert(manager.plugins_view() =~= Map::<Seq<char>, PluginView<M>>::empty());
        manager
    }

    /// The path of the plugin folder.
    pub fn folder(&self) -> (folder: &String)
        ensures
            folder@ == self.folder_view(),
    {
        &self.folder
    }

    /// The number of registered plugins.
    pub fn len(&self) -> (count: usize)
        ensures
            count == self.plugins_view().len(),
    {
        proof {
            assert(self.plugins_view().dom() =~= self.plugins@.dom());
        }
        self.plugins.len()
    }

    /// Enters a plugin under the name that its policy gives it. A plugin
    /// that was there under that name is replaced.
    pub fn register(&mut self, plugin: Plugin<M>)
        ensures
            final(self).folder_view() == old(self).folder_view(),
            final(self).plugins_view() == old(self).plugins_view().insert(
                plugin@.config.name,
                plugin@,
            ),
    {
        let name = plugin.config.name.clone();
        proof {
            use_type_invariant(&*self);
        }
        let mut plugins: StringHashMap<Plugin<M>> = StringHashMap::new();
        core::mem::swap(&mut self.plugins, &mut plugins);
        plugins.insert(name, plugin);
        self.plugins = plugins;
        assert(self.plugins_view() =~= old(self).plugins_view().insert(
            plugin@.config.name,
            plugin@,
        ));
    }

    /// Loads the registry from a listing of the plugin folder; `None` says
    /// that the folder could not be listed. The entries are gone through in
    /// order. A folder that holds a plugin is registered, any other entry is
    /// passed over without an error. Only a folder that cannot be listed, or
    /// an entry that cannot be read, is an error: the plugins of the entries
    /// before it stay registered.
    pub fn registry(&mut self, listing: Option<Vec<FolderEntry<M>>>) -> (loaded: Result<
        (),
        PluginError,
    >)
        ensures
            final(self).folder_view() == old(self).folder_view(),
            match listing {
                None => loaded is Err && final(self).plugins_view() == old(self).plugins_view(),
                Some(entries) => {
                    &&& loaded is Ok <==> spec_readable_prefix(entries@) == entries@.len()
                    &&& final(self).plugins_view() == spec_register_all(
                        old(self).plugins_view(),
                        entries@.take(spec_readable_prefix(entries@)),
                    )
                },
            },
    {
        let entries = match listing {
            None => {
                return Err(PluginError::InvalidFolder);
            },
            Some(entries) => entries,
        };
        let ghost all = entries@;
        let ghost start = self.plugins_view();
        proof {
            assert(all.take(0) =~= Seq::<FolderEntry<M>>::empty());
        }
        for entry in steps: entries.into_iter()
            invariant
                steps.seq() == all,
                listing matches Some(listed) && listed@ == all,
                self.folder_view() == old(self).folder_view(),
                start == old(self).plugins_view(),
                forall|j: int| 0 <= j < steps.index() ==> !(all[j] is Unreadable),
                self.plugins_view() == spec_register_all(start, all.take(steps.index() as int)),
        {
            let ghost done = steps.index() as int;
            assert(entry == all[done]);
            proof {
                assert(all.take(done + 1).drop_last() =~= all.take(done));
                assert(all.take(done + 1).last() == all[done]);
            }
            match entry {
                FolderEntry::Unreadable => {
                    proof {
                        lemma_readable_prefix(all, done);
                    }
                    return Err(PluginError::InvalidFolder);
                },
                FolderEntry::NotAFolder => {},
                FolderEntry::Folder(folder) => {
                    match Plugin::new_from_folder(folder) {
                        Some(plugin) => {
                            self.register(plugin);
                        },
                        None => {},
                    }
                },
            }
        }
        proof {
            lemma_readable_prefix(all, all.len() as int);
            assert(all.take(all.len() as int) =~= all);
        }
        Ok(())
    }

    /// The plugin that is registered under `name`; its policy gives it that
    /// very name.
    pub fn lookup(&self, name: &str) -> (found: Result<&Plugin<M>, InvocationError>)
        ensures
            match found {
                Ok(plugin) => {
                    &&& self.plugins_view().contains_key(name@)
                    &&& plugin@ == self.plugins_view()[name@]
                    &&& plugin@.config.name == name@
                },
                Err(error) => !self.plugins_view().contains_key(name@)
                    && error@ == InvocationErrorView::PluginDoesNotExist,
            },
    {
        proof {
            use_type_invariant(self);
        }
        match self.plugins.get(name) {
            Some(plugin) => Ok(plugin),
            None => Err(InvocationError::PluginDoesNotExist),
        }
    }

    /// What the engine is to run for an invocation of the plugin `plugin_name`
    /// on `input`: the plugin's module, and a host state made for this
    /// invocation alone from the plugin's policy and the input. A name that is
    /// not registered is an error, and nothing is run.
    pub fn invoke(&self, plugin_name: &str, input: Vec<(String, String)>) -> (started: Result<
        Invocation<'_, M>,
        InvocationError,
    >)
        ensures
            match started {
                Ok(invocation) => {
                    &&& self.plugins_view().contains_key(plugin_name@)
                    &&& *invocation.module == self.plugins_view()[plugin_name@].wasm
                    &&& invocation.runtime.config@ == self.plugins_view()[plugin_name@].config
                    &&& invocation.runtime.config@.name == plugin_name@
                    &&& invocation.runtime.input_view() == spec_input(input.deep_view())
                },
                Err(error) => !self.plugins_view().contains_key(plugin_name@)
                    && error@ == InvocationErrorView::PluginDoesNotExist,
            },
    {
        match self.lookup(plugin_name) {
            Ok(plugin) => Ok(Invocation { module: &plugin.wasm, runtime: plugin.invoke(input) }),
            Err(error) => Err(error),
        }
    }
}

/// Where none of the first `count` entries is unreadable and either that is
/// all of them or the next one is unreadable, the readable prefix has `count`
/// entries.
pub proof fn lemma_readable_prefix<M>(entries: Seq<FolderEntry<M>>, count: int)
    requires
        0 <= count <= entries.len(),
        forall|j: int| 0 <= j < count ==> !(entries[j] is Unreadable),
        count < entries.len() ==> entries[count] is Unreadable,
    ensures
        spec_readable_prefix(entries) == count,
    decreases entries.len(),
{
    if entries.len() > 0 && count > 0 {
        let rest = entries.drop_first();
        assert forall|j: int| 0 <= j < count - 1 implies !(rest[j] is Unreadable) by {
            assert(rest[j] == entries[j + 1]);
        }
        lemma_readable_prefix(rest, count - 1);
    }
}

/// Entries that hold no plugin leave the registry as it was. A folder that
/// lacks `config.toml` or `plugin.wasm` is such an entry.
pub proof fn lemma_incomplete_folders_change_nothing<M>(
    plugins: Map<Seq<char>, PluginView<M>>,
    entries: Seq<FolderEntry<M>>,
)
    requires
        forall|i: int|
            0 <= i < entries.len() ==> match #[trigger] entries[i] {
                FolderEntry::Folder(folder) => folder.config is Missing || folder.module is Missing,
                FolderEntry::NotAFolder => true,
                FolderEntry::Unreadable => false,
            },
    ensures
        spec_register_all(plugins, entries) == plugins,
        spec_readable_prefix(entries) == entries.len(),
    decreases entries.len(),
{
    lemma_readable_prefix(entries, entries.len() as int);
    if entries.len() > 0 {
        let front = entries.drop_last();
        assert forall|i: int| 0 <= i < front.len() implies match #[trigger] front[i] {
            FolderEntry::Folder(folder) => folder.config is Missing || folder.module is Missing,
            FolderEntry::NotAFolder => true,
            FolderEntry::Unreadable => false,
        } by {
            assert(front[i] == entries[i]);
        }
        lemma_incomplete_folders_change_nothing(plugins, front);
        assert(spec_plugin_of_entry(entries.last()) is None);
    }
}

/// Going through a listing adds to a registry what going through it adds to
/// an empty one, entry for entry, and replaces what was there under the same
/// names.
pub proof fn lemma_register_all_is_union<M>(
    plugins: Map<Seq<char>, PluginView<M>>,
    entries: Seq<FolderEntry<M>>,
)
    ensures
        spec_register_all(plugins, entries) == plugins.union_prefer_right(
            spec_register_all(Map::empty(), entries),
        ),
    decreases entries.len(),
{
    let empty = Map::<Seq<char>, PluginView<M>>::empty();
    if entries.len() == 0 {
        assert(plugins.union_prefer_right(empty) =~= plugins);
    } else {
        lemma_register_all_is_union(plugins, entries.drop_last());
        let before = spec_register_all(plugins, entries.drop_last());
        let added = spec_register_all(empty, entries.drop_last());
        match spec_plugin_of_entry(entries.last()) {
            Some(plugin) => {
                assert(before.insert(plugin.config.name, plugin) =~= plugins.union_prefer_right(
                    added.insert(plugin.config.name, plugin),
                ));
            },
            None => {},
        }
    }
}

/// Loading is idempotent: going through the same listing a second time
/// leaves the registry as the first time left it.
pub proof fn lemma_registry_is_idempotent<M>(
    plugins: Map<Seq<char>, PluginView<M>>,
    entries: Seq<FolderEntry<M>>,
)
    ensures
        spec_register_all(spec_register_all(plugins, entries), entries) == spec_register_all(
            plugins,
            entries,
        ),
{
    let once = spec_register_all(plugins, entries);
    let added = spec_register_all(Map::<Seq<char>, PluginView<M>>::empty(), entries);
    lemma_register_all_is_union(plugins, entries);
    lemma_register_all_is_union(once, entries);
    assert(plugins.union_prefer_right(added).union_prefer_right(added)
        =~= plugins.union_prefer_right(added));
}

} // verus!
