//! Options of the annotation pass and the attribute names they resolve to.

use vstd::prelude::*;

verus! {

/// Options of one run of the pass.
#[derive(Debug, Clone)]
pub struct PluginConfig {
    /// Use camelCase attribute names instead of kebab-case ones.
    pub native: bool,
    /// Component names that are never annotated.
    pub ignored_components: Vec<String>,
    /// Replaces the component attribute's name, whatever `native` says.
    pub component_attr: Option<String>,
    /// Replaces the element attribute's name, whatever `native` says.
    pub element_attr: Option<String>,
    /// Replaces the source file attribute's name, whatever `native` says.
    pub source_file_attr: Option<String>,
    /// Replaces the source path attribute's name; the attribute is only
    /// written when this is set.
    pub source_path_attr: Option<String>,
    /// Rewrite `styled(Component)` calls so that the wrapped component is annotated.
    pub experimental_rewrite_emotion_styled: bool,
}

/// The name that an attribute gets: the override where one is set, else the
/// camelCase or the kebab-case default.
pub open spec fn resolved_attr_name(
    custom: Option<String>,
    native: bool,
    native_name: Seq<char>,
    web_name: Seq<char>,
) -> Seq<char> {
    match custom {
        Some(name) => name@,
        None => if native {
            native_name
        } else {
            web_name
        },
    }
}

impl Default for PluginConfig {
    fn default() -> (config: PluginConfig)
        ensures
            !config.native,
            config.ignored_components@.len() == 0,
            config.component_attr.is_none(),
            config.element_attr.is_none(),
            config.source_file_attr.is_none(),
            config.source_path_attr.is_none(),
            !config.experimental_rewrite_emotion_styled,
    {
        PluginConfig {
            native: false,
            ignored_components: Vec::new(),
            component_attr: None,
            element_attr: None,
            source_file_attr: None,
            source_path_attr: None,
            experimental_rewrite_emotion_styled: false,
        }
    }
}

impl PluginConfig {
    /// Name of the attribute that carries the component's name.
    pub open spec fn spec_component_attr_name(&self) -> Seq<char> {
        resolved_attr_name(self.component_attr, self.native, "dataComponent"@, "data-component"@)
    }

    /// Name of the attribute that carries the element's display name.
    pub open spec fn spec_element_attr_name(&self) -> Seq<char> {
        resolved_attr_name(self.element_attr, self.native, "dataElement"@, "data-element"@)
    }

    /// Name of the attribute that carries the short source file name.
    pub open spec fn spec_source_file_attr_name(&self) -> Seq<char> {
        resolved_attr_name(
            self.source_file_attr,
            self.native,
            "dataSourceFile"@,
            "data-source-file"@,
        )
    }

    /// Name of the attribute that carries the source path.
    pub open spec fn spec_source_path_attr_name(&self) -> Seq<char> {
        resolved_attr_name(
            self.source_path_attr,
            self.native,
            "dataSourcePath"@,
            "data-source-path"@,
        )
    }

    pub fn component_attr_name(&self) -> (name: &str)
        ensures
            name@ == self.spec_component_attr_name(),
    {
        match &self.component_attr {
            Some(custom) => custom.as_str(),
            None => if self.native {
                "dataComponent"
            } else {
                "data-component"
            },
        }
    }

    pub fn element_attr_name(&self) -> (name: &str)
        ensures
            name@ == self.spec_element_attr_name(),
    {
        match &self.element_attr {
            Some(custom) => custom.as_str(),
            None => if self.native {
                "dataElement"
            } else {
                "data-element"
            },
        }
    }

    pub fn source_file_attr_name(&self) -> (name: &str)
        ensures
            name@ == self.spec_source_file_attr_name(),
    {
        match &self.source_file_attr {
            Some(custom) => custom.as_str(),
            None => if self.native {
                "dataSourceFile"
            } else {
                "data-source-file"
            },
        }
    }

    pub fn source_path_attr_name(&self) -> (name: &str)
        ensures
            name@ == self.spec_source_path_attr_name(),
    {
        match &self.source_path_attr {
            Some(custom) => custom.as_str(),
            None => if self.native {
                "dataSourcePath"
            } else {
                "data-source-path"
            },
        }
    }
}

} // verus!
