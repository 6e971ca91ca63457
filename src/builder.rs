use vstd::prelude::*;
use crate::app::BLEApp;
use crate::gatt::AdvConfig;

verus! {

/// A configuration that cannot make an application.
#[derive(Clone, Copy, Debug, PartialEq, Eq, Structural)]
pub enum BuildError {
    MissingAppId,
    MissingAdvConfiguration,
}

/// Collects the configuration of a GATT application; `build` checks that
/// the mandatory parts are present.
pub struct BLEAppBuilder {
    pub app_id: Option<u16>,
    pub device_name: Option<String>,
    pub adv_configuration: Option<AdvConfig>,
}

impl BLEApp {
    pub fn builder() -> (r: BLEAppBuilder)
        ensures
            r.app_id is None,
            r.device_name is None,
            r.adv_configuration is None,
    {
        BLEAppBuilder::new()
    }
}

impl BLEAppBuilder {
    pub fn new() -> (r: BLEAppBuilder)
        ensures
            r.app_id is None,
            r.device_name is None,
            r.adv_configuration is None,
    {
        BLEAppBuilder { app_id: None, device_name: None, adv_configuration: None }
    }

    pub fn app_id(self, app_id: u16) -> (r: BLEAppBuilder)
        ensures
            r.app_id == Some(app_id),
            r.device_name == self.device_name,
            r.adv_configuration == self.adv_configuration,
    {
        BLEAppBuilder { app_id: Some(app_id), ..self }
    }

    pub fn device_name(self, device_name: String) -> (r: BLEAppBuilder)
        ensures
            r.app_id == self.app_id,
            r.device_name == Some(device_name),
            r.adv_configuration == self.adv_configuration,
    {
        BLEAppBuilder { device_name: Some(device_name), ..self }
    }

    pub fn adv_configuration(self, adv_configuration: AdvConfig) -> (r: BLEAppBuilder)
        ensures
            r.app_id == self.app_id,
            r.device_name == self.device_name,
            r.adv_configuration == Some(adv_configuration),
    {
        BLEAppBuilder { adv_configuration: Some(adv_configuration), ..self }
    }

    /// An application with an empty registry, or the first missing
    /// mandatory part: the app id, then the advertising parameters.
    pub fn build(&self) -> (r: Result<BLEApp, BuildError>)
        ensures
            self.app_id is None ==> r == Err::<BLEApp, BuildError>(BuildError::MissingAppId),
            self.app_id is Some && self.adv_configuration is None
                ==> r == Err::<BLEApp, BuildError>(BuildError::MissingAdvConfiguration),
            r matches Ok(app) ==> {
                &&& app.wf()
                &&& self.app_id == Some(app.app_id)
                &&& self.adv_configuration == Some(app.adv_configuration)
                &&& app.device_name@ == (match self.device_name {
                    Some(n) => n@,
                    None => "ESP32"@,
                })
                &&& app.services@.len() == 0
                &&& app.characteristics@.len() == 0
                &&& app.descriptors@.len() == 0
            },
            (self.app_id is Some && self.adv_configuration is Some) ==> r is Ok,
    {
        let app_id = match self.app_id {
            Some(id) => id,
            None => {
                return Err(BuildError::MissingAppId);
            },
        };
        let adv = match self.adv_configuration {
            Some(a) => a,
            None => {
                return Err(BuildError::MissingAdvConfiguration);
            },
        };
        let name = match &self.device_name {
            Some(n) => Some(n.clone()),
            None => None,
        };
        Ok(BLEApp::new(app_id, adv, name))
    }
}

} // verus!
