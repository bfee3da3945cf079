use vstd::prelude::*;

use crate::accessory::information::{
    information_fits, information_service, is_information_service, Information,
};
use crate::accessory::Accessory;
use crate::error::HapError;
use crate::service::Service;

verus! {

/// Makes a bridge: an accessory whose one service is the accessory information.
///
/// A text of the information of more than 64 characters is refused with
/// `HapError::InvalidValue`.
pub fn new(information: Information) -> (made: Result<Accessory, HapError>)
    ensures
        made is Ok <==> information_fits(information),
        made matches Ok(a) ==> {
            &&& a.id == 0
            &&& a.services@.len() == 1
            &&& is_information_service(a.services@[0], information)
        },
        made matches Err(e) ==> e == HapError::InvalidValue,
{
    let mut services: Vec<Service> = Vec::new();
    services.push(information_service(information)?);
    Ok(Accessory::new(services))
}

} // verus!
