//! Bluetooth controller decisions.
//!
//! The radio stack is a long-lived session the surrounding application
//! drives asynchronously: it opens the session, re-resolves the default
//! adapter on every call, performs the power query or command, and hands the
//! outcome back. The decisions — which outcome is which typed error, and
//! what a successful query means — live here. A value of `BluetoothControl`
//! stands for an open session; construction fails when the stack cannot be
//! reached, so no operation ever runs without one.

use vstd::prelude::*;
use vstd::string::*;

verus! {

#[derive(Debug, Clone, Copy, PartialEq, Eq)]
pub enum BluetoothErrorCodes {
    NoBluetoothDeviceFound,
    UnableToTurnOnBluetooth,
    UnableToTurnOffBluetooth,
    UnableToConnectToBluetoothDevice,
    UnableToDisconnectFromBluetoothDevice,
    UnableToGetBluetoothDeviceStatus,
    Unknown,
}

impl BluetoothErrorCodes {
    /// The code's name, as the front-ends print it.
    pub fn name(&self) -> (r: String)
        ensures
            match *self {
                BluetoothErrorCodes::NoBluetoothDeviceFound => r@ == "NoBluetoothDeviceFound"@,
                BluetoothErrorCodes::UnableToTurnOnBluetooth => r@ == "UnableToTurnOnBluetooth"@,
                BluetoothErrorCodes::UnableToTurnOffBluetooth => r@ == "UnableToTurnOffBluetooth"@,
                BluetoothErrorCodes::UnableToConnectToBluetoothDevice => r@
                    == "UnableToConnectToBluetoothDevice"@,
                BluetoothErrorCodes::UnableToDisconnectFromBluetoothDevice => r@
                    == "UnableToDisconnectFromBluetoothDevice"@,
                BluetoothErrorCodes::UnableToGetBluetoothDeviceStatus => r@
                    == "UnableToGetBluetoothDeviceStatus"@,
                BluetoothErrorCodes::Unknown => r@ == "Unknown"@,
            },
    {
        match *self {
            BluetoothErrorCodes::NoBluetoothDeviceFound => String::from_str(
                "NoBluetoothDeviceFound",
            ),
            BluetoothErrorCodes::UnableToTurnOnBluetooth => String::from_str(
                "UnableToTurnOnBluetooth",
            ),
            BluetoothErrorCodes::UnableToTurnOffBluetooth => String::from_str(
                "UnableToTurnOffBluetooth",
            ),
            BluetoothErrorCodes::UnableToConnectToBluetoothDevice => String::from_str(
                "UnableToConnectToBluetoothDevice",
            ),
            BluetoothErrorCodes::UnableToDisconnectFromBluetoothDevice => String::from_str(
                "UnableToDisconnectFromBluetoothDevice",
            ),
            BluetoothErrorCodes::UnableToGetBluetoothDeviceStatus => String::from_str(
                "UnableToGetBluetoothDeviceStatus",
            ),
            BluetoothErrorCodes::Unknown => String::from_str("Unknown"),
        }
    }
}

#[derive(Debug)]
pub struct BluetoothError {
    pub code: BluetoothErrorCodes,
    pub message: String,
}

impl BluetoothError {
    pub fn new(code: BluetoothErrorCodes, message: String) -> (r: Self)
        ensures
            r.code == code,
            r.message == message,
    {
        BluetoothError { code, message }
    }
}

/// How a power-state query of the default adapter ended: no adapter could be
/// resolved, the query itself failed, or the adapter answered.
#[derive(Debug, Clone, Copy, PartialEq, Eq)]
pub enum AdapterQuery {
    NoAdapter,
    QueryFailed,
    Powered(bool),
}

/// How a power command to the default adapter ended.
#[derive(Debug, Clone, Copy, PartialEq, Eq)]
pub enum AdapterCommand {
    NoAdapter,
    CommandFailed,
    Done,
}

/// An open radio-stack session. There is no explicit teardown: the session
/// is released when the value is dropped.
#[derive(Debug)]
pub struct BluetoothControl {}

impl BluetoothControl {
    /// Construct from the attempt to open a stack session: an unreachable
    /// stack never yields a controller.
    pub fn new(session_opened: bool) -> (r: Result<BluetoothControl, BluetoothError>)
        ensures
            session_opened <==> r is Ok,
            !session_opened ==> r->Err_0.code is NoBluetoothDeviceFound,
    {
        if session_opened {
            Ok(BluetoothControl {  })
        } else {
            Err(
                BluetoothError::new(
                    BluetoothErrorCodes::NoBluetoothDeviceFound,
                    String::from_str("unable to detect radio stack"),
                ),
            )
        }
    }

    /// Type a power-state query: a transient adapter absence surfaces here,
    /// as a status-query failure, not at construction.
    pub fn bluetooth_status(&self, outcome: AdapterQuery) -> (r: Result<bool, BluetoothError>)
        ensures
            outcome matches AdapterQuery::Powered(p) ==> r == Ok::<bool, BluetoothError>(p),
            outcome is QueryFailed ==> r is Err && r->Err_0.code
                is UnableToGetBluetoothDeviceStatus,
            outcome is NoAdapter ==> r is Err && r->Err_0.code is Unknown,
    {
        match outcome {
            AdapterQuery::Powered(p) => Ok(p),
            AdapterQuery::QueryFailed => Err(
                BluetoothError::new(
                    BluetoothErrorCodes::UnableToGetBluetoothDeviceStatus,
                    String::from_str("unable to get bluetooth status"),
                ),
            ),
            AdapterQuery::NoAdapter => Err(
                BluetoothError::new(
                    BluetoothErrorCodes::Unknown,
                    String::from_str("unable to resolve default adapter"),
                ),
            ),
        }
    }

    /// Type the outcome of powering the adapter on.
    pub fn enable_bluetooth(&self, outcome: AdapterCommand) -> (r: Result<(), BluetoothError>)
        ensures
            outcome is Done <==> r is Ok,
            outcome is CommandFailed ==> r->Err_0.code is UnableToTurnOnBluetooth,
            outcome is NoAdapter ==> r->Err_0.code is Unknown,
    {
        match outcome {
            AdapterCommand::Done => Ok(()),
            AdapterCommand::CommandFailed => Err(
                BluetoothError::new(
                    BluetoothErrorCodes::UnableToTurnOnBluetooth,
                    String::from_str("unable to turn on bluetooth"),
                ),
            ),
            AdapterCommand::NoAdapter => Err(
                BluetoothError::new(
                    BluetoothErrorCodes::Unknown,
                    String::from_str("unable to resolve default adapter"),
                ),
            ),
        }
    }

    /// Type the outcome of powering the adapter off.
    pub fn disable_bluetooth(&self, outcome: AdapterCommand) -> (r: Result<(), BluetoothError>)
        ensures
            outcome is Done <==> r is Ok,
            outcome is CommandFailed ==> r->Err_0.code is UnableToTurnOffBluetooth,
            outcome is NoAdapter ==> r->Err_0.code is Unknown,
    {
        match outcome {
            AdapterCommand::Done => Ok(()),
            AdapterCommand::CommandFailed => Err(
                BluetoothError::new(
                    BluetoothErrorCodes::UnableToTurnOffBluetooth,
                    String::from_str("unable to turn off bluetooth"),
                ),
            ),
            AdapterCommand::NoAdapter => Err(
                BluetoothError::new(
                    BluetoothErrorCodes::Unknown,
                    String::from_str("unable to resolve default adapter"),
                ),
            ),
        }
    }
}

} // verus!
