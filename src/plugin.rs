//! Generation of the systems that reset a container inside a host engine's
//! scheduler: which registration attributes a type carries, which plugin
//! they name, and the code of the reset systems added to that plugin.
use vstd::prelude::*;

verus! {

/// One item of an attribute's argument list, as far as the plugin path is
/// concerned.
#[derive(Clone, Debug, PartialEq)]
pub enum MetaItem {
    /// A bare path, such as `plugin`.
    Path,
    /// A list such as `plugin(MyPlugin)`: the list's name when it is a single
    /// identifier, and the last path nested in it.
    List { ident: Option<String>, nested: Option<String> },
    /// An assignment such as `plugin = MyPlugin`: the assigned path, or
    /// `None` when the value is not a path.
    NameValue { path: Option<String> },
    /// A literal.
    Literal,
}

/// The arguments of a registration attribute.
#[derive(Clone, Debug, PartialEq)]
pub enum AttrArgs {
    /// No arguments: `#[auto_component]`.
    Word,
    /// A parenthesised list.
    List(Vec<MetaItem>),
    /// A value: `#[auto_component = x]`.
    Value,
}

/// One attribute of a type: its name when its path is a single identifier,
/// and its arguments.
#[derive(Clone, Debug, PartialEq)]
pub struct AttrMeta {
    pub ident: Option<String>,
    pub args: AttrArgs,
}

/// Why the plugin named by a registration attribute cannot be read.
#[derive(Clone, Copy, Debug, PartialEq, Eq)]
pub enum PluginPathError {
    /// `plugin` was given without a value.
    ExpectedValue,
    /// No `plugin` argument was found.
    ExpectedPlugin,
    /// `plugin = ...` was given something other than a path.
    ExpectedPath,
    /// A list's name is not a single identifier.
    NotIdent,
    /// The attribute has no argument list.
    UnsupportedFormat,
}

/// The path of the plugin that a registration attribute names.
#[derive(Clone, Debug, PartialEq)]
pub struct PluginPath(pub String);

/// Where a registration attribute registers the type.
#[derive(Clone, Copy, Debug, PartialEq, Eq)]
pub enum RegistrationKind {
    Component,
    Resource,
}

/// What an attribute's name registers, if anything.
pub open spec fn kind_of(name: Seq<char>) -> Option<RegistrationKind> {
    if name == "auto_component"@ {
        Some(RegistrationKind::Component)
    } else if name == "auto_resource"@ || name == "auto_init_resource"@ || name
        == "auto_insert_resource"@ {
        Some(RegistrationKind::Resource)
    } else {
        None
    }
}

/// The plugin path that an argument list names: the first item decides,
/// except that lists under another name are skipped.
pub open spec fn plugin_of_items(items: Seq<MetaItem>) -> Result<Seq<char>, PluginPathError>
    decreases items.len(),
{
    if items.len() == 0 {
        Err(PluginPathError::ExpectedPlugin)
    } else {
        match items[0] {
            MetaItem::Path => Err(PluginPathError::ExpectedValue),
            MetaItem::List { ident, nested } => match ident {
                None => Err(PluginPathError::NotIdent),
                Some(name) => if name@ != "plugin"@ {
                    plugin_of_items(items.drop_first())
                } else {
                    match nested {
                        None => Err(PluginPathError::ExpectedPlugin),
                        Some(path) => Ok(path@),
                    }
                },
            },
            MetaItem::NameValue { path } => match path {
                None => Err(PluginPathError::ExpectedPath),
                Some(p) => Ok(p@),
            },
            MetaItem::Literal => Err(PluginPathError::ExpectedPlugin),
        }
    }
}

/// The plugin path that an attribute's arguments name.
pub open spec fn plugin_of_args(args: AttrArgs) -> Result<Seq<char>, PluginPathError> {
    match args {
        AttrArgs::List(items) => plugin_of_items(items@),
        _ => Err(PluginPathError::UnsupportedFormat),
    }
}

/// The plugins that a type's attributes register it with, as a component
/// and as a resource; a later attribute of a kind overrides an earlier one,
/// and the first unreadable registration attribute is the error.
pub open spec fn registrations(attrs: Seq<AttrMeta>) -> Result<
    (Option<Seq<char>>, Option<Seq<char>>),
    PluginPathError,
>
    decreases attrs.len(),
{
    if attrs.len() == 0 {
        Ok((None, None))
    } else {
        let a = attrs.last();
        match registrations(attrs.drop_last()) {
            Err(e) => Err(e),
            Ok((component, resource)) => match a.ident {
                None => Ok((component, resource)),
                Some(name) => match kind_of(name@) {
                    None => Ok((component, resource)),
                    Some(kind) => match plugin_of_args(a.args) {
                        Err(e) => Err(e),
                        Ok(p) => match kind {
                            RegistrationKind::Component => Ok((Some(p), resource)),
                            RegistrationKind::Resource => Ok((component, Some(p))),
                        },
                    },
                },
            },
        }
    }
}

/// The attributes on the reset system added to `plugin`.
pub open spec fn system_attr_text(plugin: Seq<char>) -> Seq<char> {
    "#[bevy_auto_plugin::prelude::auto_system(plugin = "@ + plugin
        + ", schedule = immediate_stats::__PreUpdate, config(in_set = immediate_stats::StatSystems::Reset,))] "@
}

/// The system that resets every unpaused component of type `ident`.
pub open spec fn component_system_text(ident: Seq<char>, plugin: Seq<char>) -> Seq<char> {
    system_attr_text(plugin) + "fn __reset_"@ + ident
        + "_component_modifiers(mut query: Query<&mut "@ + ident
        + ", Without<immediate_stats::PauseStatReset>>) { for mut stat in &mut query { stat.reset_modifiers(); } } "@
}

/// The system that resets the resource of type `ident`, if it exists.
pub open spec fn resource_system_text(ident: Seq<char>, plugin: Seq<char>) -> Seq<char> {
    system_attr_text(plugin) + "fn __reset_"@ + ident + "_resource_modifiers(res: Option<ResMut<"@
        + ident + ">>) { if let Some(mut res) = res { res.reset_modifiers(); } } "@
}

/// The systems for a type registered with the given plugins.
pub open spec fn systems_text(
    ident: Seq<char>,
    component: Option<Seq<char>>,
    resource: Option<Seq<char>>,
) -> Seq<char> {
    let c = match component {
        Some(p) => component_system_text(ident, p),
        None => seq![],
    };
    let r = match resource {
        Some(p) => resource_system_text(ident, p),
        None => seq![],
    };
    c + r
}

/// What the attributes of a type register, and for which plugins.
#[derive(Clone, Debug, PartialEq)]
pub struct AutoPluginAttributes {
    pub ident: String,
    pub component_plugin: Option<PluginPath>,
    pub resource_plugin: Option<PluginPath>,
}

/// The model of an optional plugin path.
pub open spec fn path_view(p: Option<PluginPath>) -> Option<Seq<char>> {
    match p {
        Some(PluginPath(s)) => Some(s@),
        None => None,
    }
}

/// What an attribute's name registers, if anything.
pub fn registration_kind(name: &String) -> (r: Option<RegistrationKind>)
    ensures
        r == kind_of(name@),
{
    let component = String::from_str("auto_component");
    let resource = String::from_str("auto_resource");
    let init_resource = String::from_str("auto_init_resource");
    let insert_resource = String::from_str("auto_insert_resource");
    if *name == component {
        Some(RegistrationKind::Component)
    } else if *name == resource || *name == init_resource || *name == insert_resource {
        Some(RegistrationKind::Resource)
    } else {
        None
    }
}

impl PluginPath {
    /// Reads the plugin path from an attribute's argument list.
    pub fn from_list(items: &Vec<MetaItem>) -> (r: Result<PluginPath, PluginPathError>)
        ensures
            match (r, plugin_of_items(items@)) {
                (Ok(PluginPath(p)), Ok(q)) => p@ == q,
                (Err(e), Err(f)) => e == f,
                _ => false,
            },
    {
        let plugin = String::from_str("plugin");
        let mut i: usize = 0;
        proof {
            assert(items@.skip(0) =~= items@);
        }
        while i < items.len()
            invariant
                plugin@ == "plugin"@,
                i <= items@.len(),
                plugin_of_items(items@) == plugin_of_items(items@.skip(i as int)),
            decreases items@.len() - i,
        {
            proof {
                assert(items@.skip(i as int)[0] == items@[i as int]);
                assert(items@.skip(i as int).drop_first() =~= items@.skip(i + 1));
            }
            match &items[i] {
                MetaItem::Path => {
                    return Err(PluginPathError::ExpectedValue);
                },
                MetaItem::List { ident, nested } => match ident {
                    None => {
                        return Err(PluginPathError::NotIdent);
                    },
                    Some(name) => {
                        if *name == plugin {
                            return match nested {
                                None => Err(PluginPathError::ExpectedPlugin),
                                Some(path) => Ok(PluginPath(path.clone())),
                            };
                        }
                    },
                },
                MetaItem::NameValue { path } => {
                    return match path {
                        None => Err(PluginPathError::ExpectedPath),
                        Some(p) => Ok(PluginPath(p.clone())),
                    };
                },
                MetaItem::Literal => {
                    return Err(PluginPathError::ExpectedPlugin);
                },
            }
            i = i + 1;
        }
        proof {
            assert(items@.skip(i as int).len() == 0);
        }
        Err(PluginPathError::ExpectedPlugin)
    }

    /// Reads the plugin path from an attribute's arguments.
    pub fn from_args(args: &AttrArgs) -> (r: Result<PluginPath, PluginPathError>)
        ensures
            match (r, plugin_of_args(*args)) {
                (Ok(PluginPath(p)), Ok(q)) => p@ == q,
                (Err(e), Err(f)) => e == f,
                _ => false,
            },
    {
        match args {
            AttrArgs::List(items) => PluginPath::from_list(items),
            _ => Err(PluginPathError::UnsupportedFormat),
        }
    }
}

impl AutoPluginAttributes {
    /// A type registered with no plugin.
    pub fn new(ident: String) -> (r: AutoPluginAttributes)
        ensures
            r.ident == ident,
            r.component_plugin is None,
            r.resource_plugin is None,
    {
        AutoPluginAttributes { ident, component_plugin: None, resource_plugin: None }
    }

    /// The code of the reset systems for the registered plugins: one that
    /// resets every unpaused component, one that resets the resource.
    pub fn to_code(&self) -> (r: String)
        ensures
            r@ == systems_text(
                self.ident@,
                path_view(self.component_plugin),
                path_view(self.resource_plugin),
            ),
    {
        let mut out = String::new();
        let ident = self.ident.as_str();
        match &self.component_plugin {
            Some(PluginPath(plugin)) => {
                out.append("#[bevy_auto_plugin::prelude::auto_system(plugin = ");
                out.append(plugin.as_str());
                out.append(
                    ", schedule = immediate_stats::__PreUpdate, config(in_set = immediate_stats::StatSystems::Reset,))] ",
                );
                out.append("fn __reset_");
                out.append(ident);
                out.append("_component_modifiers(mut query: Query<&mut ");
                out.append(ident);
                out.append(
                    ", Without<immediate_stats::PauseStatReset>>) { for mut stat in &mut query { stat.reset_modifiers(); } } ",
                );
            },
            None => {},
        }
        let ghost mid = out@;
        match &self.resource_plugin {
            Some(PluginPath(plugin)) => {
                out.append("#[bevy_auto_plugin::prelude::auto_system(plugin = ");
                out.append(plugin.as_str());
                out.append(
                    ", schedule = immediate_stats::__PreUpdate, config(in_set = immediate_stats::StatSystems::Reset,))] ",
                );
                out.append("fn __reset_");
                out.append(ident);
                out.append("_resource_modifiers(res: Option<ResMut<");
                out.append(ident);
                out.append(">>) { if let Some(mut res) = res { res.reset_modifiers(); } } ");
            },
            None => {},
        }
        proof {
            assert(out@ =~= systems_text(
                self.ident@,
                path_view(self.component_plugin),
                path_view(self.resource_plugin),
            ));
        }
        out
    }
}

/// Reads the registration attributes of the type called `ident` and returns
/// the code of its reset systems, or the first unreadable registration.
pub fn register_systems(ident: &String, attrs: &Vec<AttrMeta>) -> (r: Result<
    String,
    PluginPathError,
>)
    ensures
        match (r, registrations(attrs@)) {
            (Ok(code), Ok((c, s))) => code@ == systems_text(ident@, c, s),
            (Err(e), Err(f)) => e == f,
            _ => false,
        },
{
    let mut found = AutoPluginAttributes::new(ident.clone());
    let mut i: usize = 0;
    while i < attrs.len()
        invariant
            i <= attrs@.len(),
            found.ident@ == ident@,
            registrations(attrs@.take(i as int)) == Ok::<
                (Option<Seq<char>>, Option<Seq<char>>),
                PluginPathError,
            >((path_view(found.component_plugin), path_view(found.resource_plugin))),
        decreases attrs@.len() - i,
    {
        proof {
            assert(attrs@.take(i + 1).drop_last() =~= attrs@.take(i as int));
        }
        let attr = &attrs[i];
        match &attr.ident {
            None => {},
            Some(name) => match registration_kind(name) {
                None => {},
                Some(kind) => {
                    let path = PluginPath::from_args(&attr.args);
                    match path {
                        Err(e) => {
                            proof {
                                lemma_registrations_error_sticks(attrs@, i as int + 1, e);
                            }
                            return Err(e);
                        },
                        Ok(p) => match kind {
                            RegistrationKind::Component => {
                                found.component_plugin = Some(p);
                            },
                            RegistrationKind::Resource => {
                                found.resource_plugin = Some(p);
                            },
                        },
                    }
                },
            },
        }
        i = i + 1;
    }
    proof {
        assert(attrs@.take(attrs@.len() as int) =~= attrs@);
    }
    Ok(found.to_code())
}

/// Once a prefix of the attributes is unreadable, so is every longer one.
proof fn lemma_registrations_error_sticks(attrs: Seq<AttrMeta>, n: int, e: PluginPathError)
    requires
        0 <= n <= attrs.len(),
        registrations(attrs.take(n)) == Err::<
            (Option<Seq<char>>, Option<Seq<char>>),
            PluginPathError,
        >(e),
    ensures
        registrations(attrs) == Err::<(Option<Seq<char>>, Option<Seq<char>>), PluginPathError>(
            e,
        ),
    decreases attrs.len() - n,
{
    if n < attrs.len() {
        assert(attrs.take(n + 1).drop_last() =~= attrs.take(n));
        lemma_registrations_error_sticks(attrs, n + 1, e);
    } else {
        assert(attrs.take(n) =~= attrs);
    }
}

} // verus!
