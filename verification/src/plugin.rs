//! The plugin registry: plugins by name, with the commands they contribute
//! indexed by command name.  The registry holds each plugin object as an
//! opaque `P` together with the name, version and command names that the
//! plugin reported when it was registered.
use vstd::prelude::*;
use crate::text::{owned, text_eq};

verus! {

#[verifier::external_type_specification]
#[verifier::external_body]
pub struct ExIoError(std::io::Error);

/// Errors of plugin operations.
#[derive(Debug)]
pub enum PluginError {
    AlreadyRegistered { name: String },
    NotRegistered { name: String },
    CommandFailed { command: String, message: String },
    InitFailed { plugin: String, message: String },
    Io(std::io::Error),
}

/// A registered plugin, by its view.
pub struct PluginEntryView<P> {
    pub name: Seq<char>,
    pub version: Seq<char>,
    pub commands: Seq<Seq<char>>,
    pub plugin: P,
}

/// The command index: command name, plugin name, position of the command in
/// the plugin's list.
pub type CommandIndex = Seq<(Seq<char>, Seq<char>, usize)>;

pub struct RegistryView<P> {
    pub plugins: Seq<PluginEntryView<P>>,
    pub index: CommandIndex,
}

/// The names of the registered plugins, in registration order.
pub open spec fn plugin_names<P>(v: Seq<PluginEntryView<P>>) -> Seq<Seq<char>> {
    v.map_values(|e: PluginEntryView<P>| e.name)
}

/// The command names of an index, in order.
pub open spec fn index_keys(t: CommandIndex) -> Seq<Seq<char>> {
    t.map_values(|e: (Seq<char>, Seq<char>, usize)| e.0)
}

/// The plugin and position that the index gives for `cmd`.
pub open spec fn index_get(t: CommandIndex, cmd: Seq<char>) -> Option<(Seq<char>, usize)> {
    if index_keys(t).contains(cmd) {
        let e = t[index_keys(t).index_of(cmd)];
        Some((e.1, e.2))
    } else {
        None
    }
}

/// The index with `cmd` pointing at position `idx` of plugin `plugin`: an
/// existing entry for `cmd` is replaced in place, otherwise one is added.
pub open spec fn index_insert(t: CommandIndex, cmd: Seq<char>, plugin: Seq<char>, idx: usize) -> CommandIndex {
    if index_keys(t).contains(cmd) {
        t.update(index_keys(t).index_of(cmd), (cmd, plugin, idx))
    } else {
        t.push((cmd, plugin, idx))
    }
}

/// The index after the first `n` commands of `cmds` were entered for
/// `plugin`, in order.
pub open spec fn index_with(t: CommandIndex, plugin: Seq<char>, cmds: Seq<Seq<char>>, n: nat) -> CommandIndex
    decreases n,
{
    if n == 0 {
        t
    } else {
        index_insert(index_with(t, plugin, cmds, (n - 1) as nat), cmds[n - 1], plugin, (n - 1) as usize)
    }
}

/// The entries of the index that belong to another plugin than `plugin`.
pub open spec fn not_of(plugin: Seq<char>) -> spec_fn((Seq<char>, Seq<char>, usize)) -> bool {
    |e: (Seq<char>, Seq<char>, usize)| e.1 != plugin
}

/// The index without the commands of `plugin`.
pub open spec fn index_without(t: CommandIndex, plugin: Seq<char>) -> CommandIndex {
    t.filter(not_of(plugin))
}

/// A plugin's settings table, by its view: key and value, in order.
pub open spec fn settings_view<V>(t: Seq<(String, V)>) -> Seq<(Seq<char>, V)> {
    t.map_values(|e: (String, V)| (e.0@, e.1))
}

/// The keys of a settings table.
pub open spec fn setting_keys<V>(t: Seq<(Seq<char>, V)>) -> Seq<Seq<char>> {
    t.map_values(|e: (Seq<char>, V)| e.0)
}

/// The settings `t` after the first `n` defaults of `d` were merged in, in
/// order: a default whose key is already present is skipped (the present
/// value is kept), any other is added at the end.
pub open spec fn with_defaults<V>(t: Seq<(Seq<char>, V)>, d: Seq<(Seq<char>, V)>, n: nat) -> Seq<(Seq<char>, V)>
    decreases n,
{
    if n == 0 {
        t
    } else {
        let p = with_defaults(t, d, (n - 1) as nat);
        if setting_keys(p).contains(d[n - 1].0) {
            p
        } else {
            p.push(d[n - 1])
        }
    }
}

/// Merges `defaults` into `settings`, keeping every value already there.
pub fn merge_defaults<V>(settings: &mut Vec<(String, V)>, defaults: Vec<(String, V)>)
    ensures
        settings_view(final(settings)@) == with_defaults(
            settings_view(old(settings)@),
            settings_view(defaults@),
            defaults@.len(),
        ),
{
    let ghost t0 = settings_view(settings@);
    let ghost dv = settings_view(defaults@);
    let ghost n0 = defaults@.len();
    let mut d = defaults;
    let total = d.len();
    let mut k: usize = 0;
    assert(settings_view(d@) =~= dv.subrange(0, n0 as int));
    while d.len() > 0
        invariant
            k + d@.len() == n0,
            n0 <= usize::MAX,
            dv.len() == n0,
            settings_view(d@) =~= dv.subrange(k as int, n0 as int),
            settings_view(settings@) == with_defaults(t0, dv, k as nat),
        decreases d.len(),
    {
        let ghost dv_before = settings_view(d@);
        let e = d.remove(0);
        assert(settings_view(d@) =~= dv_before.drop_first());
        assert(dv_before[0] == (e.0@, e.1));
        assert(dv_before[0] == dv[k as int]);
        let ghost cur = settings_view(settings@);
        let mut found = false;
        let mut i: usize = 0;
        while i < settings.len()
            invariant
                cur == settings_view(settings@),
                i <= settings.len(),
                !found ==> forall|j: int| 0 <= j < i ==> cur[j].0 != e.0@,
                found ==> setting_keys(cur).contains(e.0@),
            decreases settings.len() - i,
        {
            if !found && text_eq(settings[i].0.as_str(), e.0.as_str()) {
                assert(setting_keys(cur)[i as int] == e.0@);
                found = true;
            }
            i = i + 1;
        }
        if !found {
            assert(!setting_keys(cur).contains(e.0@)) by {
                if setting_keys(cur).contains(e.0@) {
                    let j = setting_keys(cur).index_of(e.0@);
                    assert(cur[j].0 == e.0@);
                }
            }
            let ghost ev = (e.0@, e.1);
            settings.push(e);
            assert(settings_view(settings@) =~= cur.push(ev));
        }
        k = k + 1;
    }
}

/// Merging defaults keeps the settings that were there: they stay first,
/// in order, with their values.
pub proof fn law_defaults_keep_settings<V>(t: Seq<(Seq<char>, V)>, d: Seq<(Seq<char>, V)>, n: nat)
    ensures
        with_defaults(t, d, n).len() >= t.len(),
        with_defaults(t, d, n).subrange(0, t.len() as int) == t,
    decreases n,
{
    if n > 0 {
        law_defaults_keep_settings(t, d, (n - 1) as nat);
        let p = with_defaults(t, d, (n - 1) as nat);
        assert(p.push(d[n - 1]).subrange(0, t.len() as int) =~= p.subrange(0, t.len() as int));
    }
}

/// Merging defaults leaves every default key present.
pub proof fn law_defaults_present<V>(t: Seq<(Seq<char>, V)>, d: Seq<(Seq<char>, V)>, n: nat, j: int)
    requires
        0 <= j < n <= d.len(),
    ensures
        setting_keys(with_defaults(t, d, n)).contains(d[j].0),
    decreases n,
{
    let p = with_defaults(t, d, (n - 1) as nat);
    if j < n - 1 {
        law_defaults_present(t, d, (n - 1) as nat, j);
        if !setting_keys(p).contains(d[n - 1].0) {
            let i = setting_keys(p).index_of(d[j].0);
            assert(setting_keys(p.push(d[n - 1]))[i] == d[j].0);
        }
    } else {
        if !setting_keys(p).contains(d[n - 1].0) {
            assert(setting_keys(p.push(d[n - 1]))[p.len() as int] == d[n - 1].0);
        }
    }
}

struct PluginSlot<P> {
    name: String,
    version: String,
    commands: Vec<String>,
    plugin: P,
}

/// The registry of loaded plugins.
pub struct PluginRegistry<P> {
    plugins: Vec<PluginSlot<P>>,
    command_index: Vec<(String, String, usize)>,
}

/// The view of a list of command names.
pub open spec fn names_view(v: Seq<String>) -> Seq<Seq<char>> {
    v.map_values(|s: String| s@)
}

impl<P> View for PluginRegistry<P> {
    type V = RegistryView<P>;

    closed spec fn view(&self) -> RegistryView<P> {
        RegistryView {
            plugins: self.plugins@.map_values(
                |s: PluginSlot<P>|
                    PluginEntryView {
                        name: s.name@,
                        version: s.version@,
                        commands: names_view(s.commands@),
                        plugin: s.plugin,
                    },
            ),
            index: self.command_index@.map_values(
                |e: (String, String, usize)| (e.0@, e.1@, e.2),
            ),
        }
    }
}

proof fn lemma_index_insert_keys(t: CommandIndex, cmd: Seq<char>, plugin: Seq<char>, idx: usize)
    requires
        index_keys(t).no_duplicates(),
    ensures
        index_keys(index_insert(t, cmd, plugin, idx)).no_duplicates(),
        index_get(index_insert(t, cmd, plugin, idx), cmd) == Some((plugin, idx)),
{
    let keys = index_keys(t);
    let t2 = index_insert(t, cmd, plugin, idx);
    let keys2 = index_keys(t2);
    if keys.contains(cmd) {
        let i = keys.index_of(cmd);
        assert(keys2 =~= keys);
        assert(keys2.index_of(cmd) == i);
    } else {
        assert(keys2 =~= keys.push(cmd));
        assert(keys2[keys.len() as int] == cmd);
        let i2 = keys2.index_of(cmd);
        assert(i2 == keys.len()) by {
            if i2 < keys.len() {
                assert(keys[i2] == cmd);
            }
        }
    }
}

proof fn lemma_index_with_keys(t: CommandIndex, plugin: Seq<char>, cmds: Seq<Seq<char>>, n: nat)
    requires
        index_keys(t).no_duplicates(),
    ensures
        index_keys(index_with(t, plugin, cmds, n)).no_duplicates(),
    decreases n,
{
    if n > 0 {
        lemma_index_with_keys(t, plugin, cmds, (n - 1) as nat);
        lemma_index_insert_keys(
            index_with(t, plugin, cmds, (n - 1) as nat),
            cmds[n - 1],
            plugin,
            (n - 1) as usize,
        );
    }
}

proof fn lemma_index_without_keys(t: CommandIndex, plugin: Seq<char>)
    requires
        index_keys(t).no_duplicates(),
    ensures
        index_keys(index_without(t, plugin)).no_duplicates(),
    decreases t.len(),
{
    reveal_with_fuel(Seq::<(Seq<char>, Seq<char>, usize)>::filter, 1);
    if t.len() > 0 {
        let pre = t.drop_last();
        assert(index_keys(pre) =~= index_keys(t).drop_last());
        lemma_index_without_keys(pre, plugin);
        let f = index_without(pre, plugin);
        if t.last().1 != plugin {
            assert(index_keys(index_without(t, plugin)) =~= index_keys(f).push(t.last().0));
            assert(!index_keys(f).contains(t.last().0)) by {
                if index_keys(f).contains(t.last().0) {
                    let k = index_keys(f).index_of(t.last().0);
                    let e = f[k];
                    assert(f.contains(e));
                    pre.lemma_filter_contains_rev(not_of(plugin), e);
                    assert(pre.contains(e));
                    let j = pre.index_of(e);
                    assert(index_keys(t)[j] == index_keys(t)[t.len() - 1]);
                }
            }
        }
    }
}

/// Inserts an entry into a command table whose command names are distinct.
fn index_insert_exec(t: &mut Vec<(String, String, usize)>, cmd: String, plugin: String, idx: usize)
    requires
        index_keys(old(t)@.map_values(|e: (String, String, usize)| (e.0@, e.1@, e.2))).no_duplicates(),
    ensures
        final(t)@.map_values(|e: (String, String, usize)| (e.0@, e.1@, e.2)) == index_insert(
            old(t)@.map_values(|e: (String, String, usize)| (e.0@, e.1@, e.2)),
            cmd@,
            plugin@,
            idx,
        ),
{
    let ghost old_view = t@.map_values(|e: (String, String, usize)| (e.0@, e.1@, e.2));
    let ghost cv = cmd@;
    let ghost pv = plugin@;
    let mut i: usize = 0;
    while i < t.len()
        invariant
            old_view == t@.map_values(|e: (String, String, usize)| (e.0@, e.1@, e.2)),
            old_view == old(t)@.map_values(|e: (String, String, usize)| (e.0@, e.1@, e.2)),
            cv == cmd@,
            pv == plugin@,
            index_keys(old_view).no_duplicates(),
            i <= t.len(),
            forall|j: int| 0 <= j < i ==> old_view[j].0 != cv,
        decreases t.len() - i,
    {
        if text_eq(t[i].0.as_str(), cmd.as_str()) {
            assert(index_keys(old_view)[i as int] == cv);
            assert(index_keys(old_view).contains(cv));
            assert(index_keys(old_view).index_of(cv) == i as int);
            t.set(i, (cmd, plugin, idx));
            assert(t@.map_values(|e: (String, String, usize)| (e.0@, e.1@, e.2)) =~= old_view.update(
                i as int,
                (cv, pv, idx),
            ));
            return ;
        }
        i = i + 1;
    }
    assert(!index_keys(old_view).contains(cv)) by {
        if index_keys(old_view).contains(cv) {
            let k = index_keys(old_view).index_of(cv);
            assert(old_view[k].0 == cv);
        }
    }
    t.push((cmd, plugin, idx));
    assert(t@.map_values(|e: (String, String, usize)| (e.0@, e.1@, e.2)) =~= old_view.push(
        (cv, pv, idx),
    ));
}

impl<P> PluginRegistry<P> {
    #[verifier::type_invariant]
    closed spec fn registry_inv(&self) -> bool {
        &&& plugin_names(self@.plugins).no_duplicates()
        &&& index_keys(self@.index).no_duplicates()
    }

    /// An empty registry.
    pub fn new() -> (r: PluginRegistry<P>)
        ensures
            r@.plugins.len() == 0,
            r@.index.len() == 0,
    {
        let r = PluginRegistry { plugins: Vec::new(), command_index: Vec::new() };
        assert(plugin_names(r@.plugins) =~= Seq::<Seq<char>>::empty());
        assert(index_keys(r@.index) =~= Seq::<Seq<char>>::empty());
        r
    }

    /// The number of registered plugins.
    pub fn len(&self) -> (r: usize)
        ensures
            r == self@.plugins.len(),
    {
        self.plugins.len()
    }

    /// Whether no plugin is registered.
    pub fn is_empty(&self) -> (r: bool)
        ensures
            r == (self@.plugins.len() == 0),
    {
        self.plugins.len() == 0
    }

    /// The position of the plugin named `name`.
    fn position(&self, name: &str) -> (r: Option<usize>)
        ensures
            match r {
                Some(i) => i < self@.plugins.len() && self@.plugins[i as int].name == name@
                    && plugin_names(self@.plugins).index_of(name@) == i,
                None => !plugin_names(self@.plugins).contains(name@),
            },
    {
        proof {
            use_type_invariant(self);
        }
        let mut i: usize = 0;
        while i < self.plugins.len()
            invariant
                i <= self.plugins.len(),
                plugin_names(self@.plugins).no_duplicates(),
                forall|j: int| 0 <= j < i ==> self@.plugins[j].name != name@,
            decreases self.plugins.len() - i,
        {
            if text_eq(self.plugins[i].name.as_str(), name) {
                assert(plugin_names(self@.plugins)[i as int] == name@);
                assert(plugin_names(self@.plugins).contains(name@));
                assert(plugin_names(self@.plugins).index_of(name@) == i as int);
                return Some(i);
            }
            i = i + 1;
        }
        assert(!plugin_names(self@.plugins).contains(name@)) by {
            if plugin_names(self@.plugins).contains(name@) {
                let k = plugin_names(self@.plugins).index_of(name@);
                assert(self@.plugins[k].name == name@);
            }
        }
        None
    }

    /// Registers `plugin` under `name` with its version and the names of its
    /// commands.  A name already registered is refused before anything else
    /// happens; otherwise `init` runs, and its failure is reported as
    /// `InitFailed` with nothing registered.  On success each command name
    /// points at the plugin and the command's position (a later command of
    /// the same name wins), the plugin's `defaults` are merged into its
    /// `settings` table without overwriting the values already there, and
    /// the plugin is added last.  Unless registration succeeds, `settings`
    /// is left as it was.
    pub fn register<V, F: FnOnce() -> Result<(), String>>(
        &mut self,
        name: String,
        version: String,
        commands: Vec<String>,
        plugin: P,
        init: F,
        settings: &mut Vec<(String, V)>,
        defaults: Vec<(String, V)>,
    ) -> (r: Result<(), PluginError>)
        requires
            init.requires(()),
        ensures
            r is Ok ==> settings_view(final(settings)@) == with_defaults(
                settings_view(old(settings)@),
                settings_view(defaults@),
                defaults@.len(),
            ),
            r is Err ==> final(settings)@ == old(settings)@,
            plugin_names(old(self)@.plugins).contains(name@) ==> (match r {
                Err(PluginError::AlreadyRegistered { name: n }) => n@ == name@,
                _ => false,
            }) && final(self)@ == old(self)@,
            !plugin_names(old(self)@.plugins).contains(name@) ==> match r {
                Ok(()) => init.ensures((), Ok(())) && final(self)@ == (RegistryView {
                    plugins: old(self)@.plugins.push(
                        PluginEntryView {
                            name: name@,
                            version: version@,
                            commands: names_view(commands@),
                            plugin,
                        },
                    ),
                    index: index_with(
                        old(self)@.index,
                        name@,
                        names_view(commands@),
                        commands@.len(),
                    ),
                }),
                Err(PluginError::InitFailed { plugin: p, message }) => p@ == name@ && init.ensures(
                    (),
                    Err(message),
                ) && final(self)@ == old(self)@,
                _ => false,
            },
    {
        proof {
            use_type_invariant(&*self);
        }
        if let Some(i) = self.position(name.as_str()) {
            assert(plugin_names(self@.plugins)[i as int] == name@);
            return Err(PluginError::AlreadyRegistered { name });
        }
        let outcome = init();
        assert(init.ensures((), outcome));
        match outcome {
            Ok(()) => {},
            Err(message) => {
                return Err(PluginError::InitFailed { plugin: name, message });
            },
        }
        assert(outcome is Ok);
        assert(outcome == Ok::<(), String>(outcome->Ok_0));
        assert(outcome->Ok_0 == ());
        assert(init.ensures((), Ok(())));
        let ghost old_view = self@;
        let ghost name_view = name@;
        let ghost version_view = version@;
        let mut index: Vec<(String, String, usize)> = Vec::new();
        std::mem::swap(&mut index, &mut self.command_index);
        let ghost cmds = names_view(commands@);
        let mut k: usize = 0;
        while k < commands.len()
            invariant
                k <= commands.len(),
                cmds == names_view(commands@),
                index@.map_values(|e: (String, String, usize)| (e.0@, e.1@, e.2)) == index_with(
                    old_view.index,
                    name@,
                    cmds,
                    k as nat,
                ),
                index_keys(old_view.index).no_duplicates(),
            decreases commands.len() - k,
        {
            proof {
                lemma_index_with_keys(old_view.index, name@, cmds, k as nat);
            }
            let c = commands[k].clone();
            let n = name.clone();
            index_insert_exec(&mut index, c, n, k);
            k = k + 1;
        }
        proof {
            lemma_index_with_keys(old_view.index, name@, cmds, commands@.len());
        }
        let mut plugins: Vec<PluginSlot<P>> = Vec::new();
        std::mem::swap(&mut plugins, &mut self.plugins);
        let ghost pv = plugins@;
        let ghost nv = name@;
        let ghost vv = version@;
        plugins.push(PluginSlot { name, version, commands, plugin });
        assert(plugin_names(
            plugins@.map_values(
                |s: PluginSlot<P>|
                    PluginEntryView {
                        name: s.name@,
                        version: s.version@,
                        commands: names_view(s.commands@),
                        plugin: s.plugin,
                    },
            ),
        ) =~= plugin_names(old_view.plugins).push(nv));
        self.plugins = plugins;
        self.command_index = index;
        merge_defaults(settings, defaults);
        assert(self@.plugins =~= old_view.plugins.push(
            PluginEntryView { name: nv, version: vv, commands: cmds, plugin },
        ));
        assert(self@.index == index_with(old_view.index, nv, cmds, cmds.len()));
        assert(old_view == old(self)@);
        assert(self@ == (RegistryView {
            plugins: old(self)@.plugins.push(
                PluginEntryView {
                    name: name_view,
                    version: version_view,
                    commands: cmds,
                    plugin,
                },
            ),
            index: index_with(old(self)@.index, name_view, cmds, cmds.len()),
        }));
        Ok(())
    }

    /// Removes the plugin named `name` and every command it contributed;
    /// afterwards no plugin of that name is registered.
    pub fn unregister(&mut self, name: &str) -> (r: Result<P, PluginError>)
        ensures
            r is Ok ==> !plugin_names(final(self)@.plugins).contains(name@),
            r is Ok <==> plugin_names(old(self)@.plugins).contains(name@),
            match r {
                Ok(p) => exists|i: int|
                    0 <= i < old(self)@.plugins.len() && old(self)@.plugins[i].name == name@
                        && p == old(self)@.plugins[i].plugin && final(self)@ == (RegistryView {
                        plugins: old(self)@.plugins.remove(i),
                        index: index_without(old(self)@.index, name@),
                    }),
                Err(PluginError::NotRegistered { name: n }) => n@ == name@ && !plugin_names(
                    old(self)@.plugins,
                ).contains(name@) && final(self)@ == old(self)@,
                _ => false,
            },
    {
        proof {
            use_type_invariant(&*self);
        }
        let pos = match self.position(name) {
            Some(i) => i,
            None => {
                return Err(PluginError::NotRegistered { name: owned(name) });
            },
        };
        let ghost old_view = self@;
        let mut index: Vec<(String, String, usize)> = Vec::new();
        std::mem::swap(&mut index, &mut self.command_index);
        let ghost iv = old_view.index;
        let mut kept: Vec<(String, String, usize)> = Vec::new();
        let mut k: usize = 0;
        while k < index.len()
            invariant
                k <= index.len(),
                iv == index@.map_values(|e: (String, String, usize)| (e.0@, e.1@, e.2)),
                kept@.map_values(|e: (String, String, usize)| (e.0@, e.1@, e.2)) == index_without(
                    iv.subrange(0, k as int),
                    name@,
                ),
            decreases index.len() - k,
        {
            proof {
                reveal_with_fuel(Seq::<(Seq<char>, Seq<char>, usize)>::filter, 1);
                assert(iv.subrange(0, k + 1).drop_last() =~= iv.subrange(0, k as int));
            }
            let ghost before = kept@.map_values(|e: (String, String, usize)| (e.0@, e.1@, e.2));
            if !text_eq(index[k].1.as_str(), name) {
                let e = (index[k].0.clone(), index[k].1.clone(), index[k].2);
                kept.push(e);
                assert(kept@.map_values(|e: (String, String, usize)| (e.0@, e.1@, e.2)) =~= before.push(
                    iv[k as int],
                ));
            }
            k = k + 1;
        }
        assert(iv.subrange(0, index.len() as int) =~= iv);
        proof {
            lemma_index_without_keys(iv, name@);
        }
        self.command_index = kept;
        let mut plugins: Vec<PluginSlot<P>> = Vec::new();
        std::mem::swap(&mut plugins, &mut self.plugins);
        let slot = plugins.remove(pos);
        let ghost pnames = plugin_names(old_view.plugins);
        assert(plugin_names(
            plugins@.map_values(
                |s: PluginSlot<P>|
                    PluginEntryView {
                        name: s.name@,
                        version: s.version@,
                        commands: names_view(s.commands@),
                        plugin: s.plugin,
                    },
            ),
        ) =~= pnames.remove(pos as int));
        self.plugins = plugins;
        assert(self@.plugins =~= old_view.plugins.remove(pos as int));
        assert(!pnames.remove(pos as int).contains(name@)) by {
            if pnames.remove(pos as int).contains(name@) {
                let j = pnames.remove(pos as int).index_of(name@);
                if j < pos {
                    assert(pnames[j] == pnames[pos as int]);
                } else {
                    assert(pnames[j + 1] == pnames[pos as int]);
                }
            }
        }
        assert(plugin_names(old_view.plugins)[pos as int] == name@);
        assert(plugin_names(old_view.plugins).contains(name@));
        Ok(slot.plugin)
    }

    /// The plugin named `name`.
    pub fn get(&self, name: &str) -> (r: Option<&P>)
        ensures
            match r {
                Some(p) => exists|i: int|
                    0 <= i < self@.plugins.len() && self@.plugins[i].name == name@ && *p
                        == self@.plugins[i].plugin,
                None => !plugin_names(self@.plugins).contains(name@),
            },
    {
        match self.position(name) {
            Some(i) => Some(&self.plugins[i].plugin),
            None => None,
        }
    }

    /// The names of the registered plugins, in registration order.
    pub fn list(&self) -> (r: Vec<&str>)
        ensures
            r@.map_values(|s: &str| s@) == plugin_names(self@.plugins),
    {
        let mut r: Vec<&str> = Vec::new();
        let mut i: usize = 0;
        while i < self.plugins.len()
            invariant
                i <= self.plugins.len(),
                r@.map_values(|s: &str| s@) == plugin_names(self@.plugins).subrange(0, i as int),
            decreases self.plugins.len() - i,
        {
            let ghost before = r@.map_values(|s: &str| s@);
            let n = self.plugins[i].name.as_str();
            assert(n@ == self@.plugins[i as int].name);
            r.push(n);
            assert(r@.map_values(|s: &str| s@) =~= before.push(n@));
            i = i + 1;
            assert(r@.map_values(|s: &str| s@) =~= plugin_names(self@.plugins).subrange(
                0,
                i as int,
            ));
        }
        r
    }

    /// The name and version of every registered plugin, in registration
    /// order.
    pub fn list_detailed(&self) -> (r: Vec<(&str, &str)>)
        ensures
            r@.len() == self@.plugins.len(),
            forall|i: int|
                0 <= i < r@.len() ==> (#[trigger] r@[i]).0@ == self@.plugins[i].name && r@[i].1@
                    == self@.plugins[i].version,
    {
        let mut r: Vec<(&str, &str)> = Vec::new();
        let mut i: usize = 0;
        while i < self.plugins.len()
            invariant
                i <= self.plugins.len(),
                r@.len() == i,
                forall|j: int|
                    0 <= j < i ==> (#[trigger] r@[j]).0@ == self@.plugins[j].name && r@[j].1@
                        == self@.plugins[j].version,
            decreases self.plugins.len() - i,
        {
            r.push((self.plugins[i].name.as_str(), self.plugins[i].version.as_str()));
            i = i + 1;
        }
        r
    }

    /// The plugin that contributed the command `cmd_name`, and the command's
    /// position among that plugin's commands.
    pub fn find_command(&self, cmd_name: &str) -> (r: Option<(&P, usize)>)
        ensures
            match r {
                Some((p, idx)) => exists|i: int|
                    0 <= i < self@.plugins.len() && index_get(self@.index, cmd_name@) == Some(
                        (self@.plugins[i].name, idx),
                    ) && *p == self@.plugins[i].plugin,
                None => match index_get(self@.index, cmd_name@) {
                    Some((pn, _)) => !plugin_names(self@.plugins).contains(pn),
                    None => true,
                },
            },
    {
        proof {
            use_type_invariant(self);
        }
        let ghost iv = self@.index;
        let mut k: usize = 0;
        while k < self.command_index.len()
            invariant
                iv == self@.index,
                index_keys(iv).no_duplicates(),
                k <= self.command_index.len(),
                forall|j: int| 0 <= j < k ==> iv[j].0 != cmd_name@,
            decreases self.command_index.len() - k,
        {
            if text_eq(self.command_index[k].0.as_str(), cmd_name) {
                assert(index_keys(iv)[k as int] == cmd_name@);
                assert(index_keys(iv).contains(cmd_name@));
                assert(index_keys(iv).index_of(cmd_name@) == k as int);
                let idx = self.command_index[k].2;
                return match self.position(self.command_index[k].1.as_str()) {
                    Some(i) => Some((&self.plugins[i].plugin, idx)),
                    None => None,
                };
            }
            k = k + 1;
        }
        assert(!index_keys(iv).contains(cmd_name@)) by {
            if index_keys(iv).contains(cmd_name@) {
                let j = index_keys(iv).index_of(cmd_name@);
                assert(iv[j].0 == cmd_name@);
            }
        }
        None
    }
}


// ---------------------------------------------------------------------------
// Laws
// ---------------------------------------------------------------------------

proof fn lemma_index_insert_frame(t: CommandIndex, cmd: Seq<char>, plugin: Seq<char>, idx: usize, other: Seq<char>)
    requires
        index_keys(t).no_duplicates(),
        other != cmd,
    ensures
        index_get(index_insert(t, cmd, plugin, idx), other) == index_get(t, other),
{
    let keys = index_keys(t);
    let t2 = index_insert(t, cmd, plugin, idx);
    let keys2 = index_keys(t2);
    if keys.contains(cmd) {
        let i = keys.index_of(cmd);
        assert(keys2 =~= keys);
        if keys.contains(other) {
            let j = keys.index_of(other);
            assert(keys2.index_of(other) == j);
            assert(j != i);
        }
    } else {
        assert(keys2 =~= keys.push(cmd));
        if keys.contains(other) {
            let j = keys.index_of(other);
            assert(keys2[j] == other);
            let j2 = keys2.index_of(other);
            assert(j2 == j) by {
                assert(j2 < keys.len());
                assert(keys[j2] == other);
            }
        } else {
            assert(!keys2.contains(other)) by {
                if keys2.contains(other) {
                    let j2 = keys2.index_of(other);
                    assert(j2 < keys.len());
                    assert(keys[j2] == other);
                }
            }
        }
    }
}

/// After a plugin is registered, every command it contributed is found and
/// points at that plugin.
pub proof fn law_registered_commands_found(t: CommandIndex, name: Seq<char>, cmds: Seq<Seq<char>>, n: nat, k: int)
    requires
        index_keys(t).no_duplicates(),
        n <= cmds.len(),
        0 <= k < n,
    ensures
        index_get(index_with(t, name, cmds, n), cmds[k]) matches Some(e) && e.0 == name,
    decreases n,
{
    lemma_index_with_keys(t, name, cmds, (n - 1) as nat);
    let prev = index_with(t, name, cmds, (n - 1) as nat);
    if cmds[k] == cmds[n - 1] {
        lemma_index_insert_keys(prev, cmds[n - 1], name, (n - 1) as usize);
    } else {
        law_registered_commands_found(t, name, cmds, (n - 1) as nat, k);
        lemma_index_insert_frame(prev, cmds[n - 1], name, (n - 1) as usize, cmds[k]);
    }
}

/// After a plugin is unregistered, no command points at it.
pub proof fn law_unregistered_commands_gone(t: CommandIndex, name: Seq<char>, cmd: Seq<char>)
    ensures
        index_get(index_without(t, name), cmd) matches Some(e) ==> e.0 != name,
{
    let f = index_without(t, name);
    if index_keys(f).contains(cmd) {
        let i = index_keys(f).index_of(cmd);
        t.lemma_filter_pred(not_of(name), i);
    }
}

} // verus!
