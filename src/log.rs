//! Which entries a query of the main log returns.
use vstd::prelude::*;

verus! {

/// The filter of a main-log query: which severities to include, and the id
/// after which entries are returned (`-1` for all).
#[derive(Debug, Clone, Copy, PartialEq, Eq, Structural)]
pub struct GetLogConfig {
    pub normal: bool,
    pub info: bool,
    pub warning: bool,
    pub critical: bool,
    pub last_known_id: i64,
}

impl GetLogConfig {
    /// Every severity, from the first entry on.
    pub fn new() -> (r: GetLogConfig)
        ensures
            r == (GetLogConfig {
                normal: true,
                info: true,
                warning: true,
                critical: true,
                last_known_id: -1i64,
            }),
    {
        GetLogConfig { normal: true, info: true, warning: true, critical: true, last_known_id: -1 }
    }

    /// A builder with nothing set.
    pub fn builder() -> (r: GetLogConfigBuilder)
        ensures
            r == GetLogConfigBuilder::empty(),
    {
        GetLogConfigBuilder::new()
    }
}

/// Builds a `GetLogConfig`; a field left unset takes the value that
/// `GetLogConfig::new` gives it.
#[derive(Debug, Clone, Copy, PartialEq, Eq, Structural)]
pub struct GetLogConfigBuilder {
    pub normal: Option<bool>,
    pub info: Option<bool>,
    pub warning: Option<bool>,
    pub critical: Option<bool>,
    pub last_known_id: Option<i64>,
}

/// The value of a severity switch: as set, or on by default.
pub open spec fn switch_or_on(o: Option<bool>) -> bool {
    match o {
        Some(v) => v,
        None => true,
    }
}

impl GetLogConfigBuilder {
    /// The builder with nothing set.
    pub open spec fn empty() -> GetLogConfigBuilder {
        GetLogConfigBuilder {
            normal: None,
            info: None,
            warning: None,
            critical: None,
            last_known_id: None,
        }
    }

    /// A builder with nothing set.
    pub fn new() -> (r: GetLogConfigBuilder)
        ensures
            r == GetLogConfigBuilder::empty(),
    {
        GetLogConfigBuilder {
            normal: None,
            info: None,
            warning: None,
            critical: None,
            last_known_id: None,
        }
    }

    /// The filter: each field as set, or as `GetLogConfig::new` has it.
    pub fn build(self) -> (r: GetLogConfig)
        ensures
            r.normal == switch_or_on(self.normal),
            r.info == switch_or_on(self.info),
            r.warning == switch_or_on(self.warning),
            r.critical == switch_or_on(self.critical),
            r.last_known_id == match self.last_known_id {
                Some(v) => v,
                None => -1i64,
            },
    {
        let normal = match self.normal {
            Some(v) => v,
            None => true,
        };
        let info = match self.info {
            Some(v) => v,
            None => true,
        };
        let warning = match self.warning {
            Some(v) => v,
            None => true,
        };
        let critical = match self.critical {
            Some(v) => v,
            None => true,
        };
        let last_known_id = match self.last_known_id {
            Some(v) => v,
            None => -1,
        };
        GetLogConfig { normal, info, warning, critical, last_known_id }
    }

    /// Sets whether normal entries are included.
    pub fn normal(self, value: bool) -> (r: Self)
        ensures
            r == (GetLogConfigBuilder { normal: Some(value), ..self }),
    {
        GetLogConfigBuilder { normal: Some(value), ..self }
    }

    /// Sets whether info entries are included.
    pub fn info(self, value: bool) -> (r: Self)
        ensures
            r == (GetLogConfigBuilder { info: Some(value), ..self }),
    {
        GetLogConfigBuilder { info: Some(value), ..self }
    }

    /// Sets whether warnings are included.
    pub fn warning(self, value: bool) -> (r: Self)
        ensures
            r == (GetLogConfigBuilder { warning: Some(value), ..self }),
    {
        GetLogConfigBuilder { warning: Some(value), ..self }
    }

    /// Sets whether critical entries are included.
    pub fn critical(self, value: bool) -> (r: Self)
        ensures
            r == (GetLogConfigBuilder { critical: Some(value), ..self }),
    {
        GetLogConfigBuilder { critical: Some(value), ..self }
    }

    /// Sets the id after which entries are returned.
    pub fn last_known_id(self, value: i64) -> (r: Self)
        ensures
            r == (GetLogConfigBuilder { last_known_id: Some(value), ..self }),
    {
        GetLogConfigBuilder { last_known_id: Some(value), ..self }
    }
}

} // verus!
