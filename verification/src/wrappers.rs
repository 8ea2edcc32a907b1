//! Devices and what they can be asked to do.
//!
//! Every method of a capability builds the request for one remote method:
//! which device, which method, which parameters. The request names the
//! type of the answer; sending it is the driver's part.

use crate::bus::DeviceBus;
use crate::call::{no_parameters, one_parameter, three_parameters, two_parameters, Request};
use crate::convert::{bytes_model, integer_model, FromJson};
use crate::json::{Json, JsonValue};
use crate::types::{DeviceData, ImportFileInfo, MoveDirection, RobotActionResult, RotationDirection};
use vstd::prelude::*;

verus! {

/// A device on the bus.
pub trait RPCDevice: Sized {
    /// The id of this device, as the directory gives it.
    spec fn device_id(&self) -> Seq<char>;

    /// Returns the id of this device.
    fn id(&self) -> (id: &str)
        ensures
            id@ == self.device_id(),
    ;

    /// Creates a device wrapper from an id.
    fn from_id(id: String) -> (device: Self)
        ensures
            device.device_id() == id@,
    ;
}

/// A device that has an identity, like "redstone": the kind under which the
/// directory lists it.
pub trait IdentifiedDevice: RPCDevice {
    /// The kind that devices of this type offer.
    spec fn kind() -> Seq<char>;

    /// Returns the kind that devices of this type offer.
    fn identity() -> (kind: &'static str)
        ensures
            kind@ == Self::kind(),
    ;
}

impl DeviceBus {
    /// The first device of the directory that is of the type `T`, wrapped.
    pub fn wrap<T: IdentifiedDevice>(devices: &Vec<DeviceData>) -> (found: Option<T>)
        ensures
            match found {
                Some(device) => exists|at: int|
                    {
                        &&& 0 <= at < devices.len()
                        &&& (#[trigger] devices[at]).offers(T::kind())
                        &&& device.device_id() == devices[at].device_id@
                        &&& forall|before: int|
                            0 <= before < at ==> !(#[trigger] devices[before]).offers(T::kind())
                    },
                None => forall|at: int|
                    0 <= at < devices.len() ==> !(#[trigger] devices[at]).offers(T::kind()),
            },
    {
        match DeviceBus::find(devices, T::identity()) {
            Some(id) => Some(T::from_id(id)),
            None => None,
        }
    }
}

/// An interface that allows for interacting with an energy storage device.
pub trait EnergyStorage: RPCDevice {
    fn get_energy_stored(&self) -> (request: Request<i32>)
        ensures
            request.asks(self.device_id(), "getEnergyStored"@, Seq::<JsonValue>::empty()),
    {
        Request::invoke(self.id(), "getEnergyStored", no_parameters())
    }

    fn get_max_energy_stored(&self) -> (request: Request<i32>)
        ensures
            request.asks(self.device_id(), "getMaxEnergyStored"@, Seq::<JsonValue>::empty()),
    {
        Request::invoke(self.id(), "getMaxEnergyStored", no_parameters())
    }

    fn can_extract_energy(&self) -> (request: Request<bool>)
        ensures
            request.asks(self.device_id(), "canExtractEnergy"@, Seq::<JsonValue>::empty()),
    {
        Request::invoke(self.id(), "canExtractEnergy", no_parameters())
    }

    fn can_receive_energy(&self) -> (request: Request<bool>)
        ensures
            request.asks(self.device_id(), "canReceiveEnergy"@, Seq::<JsonValue>::empty()),
    {
        Request::invoke(self.id(), "canReceiveEnergy", no_parameters())
    }
}

/// An interface that allows for interacting with items.
pub trait ItemHandler: RPCDevice {
    fn get_item_slot_count(&self) -> (request: Request<i32>)
        ensures
            request.asks(self.device_id(), "getItemSlotCount"@, Seq::<JsonValue>::empty()),
    {
        Request::invoke(self.id(), "getItemSlotCount", no_parameters())
    }

    fn get_item_slot_limit(&self, slot: i32) -> (request: Request<i32>)
        ensures
            request.asks(self.device_id(), "getItemSlotLimit"@, seq![integer_model(slot as int)]),
    {
        Request::invoke(self.id(), "getItemSlotLimit", one_parameter(Json::integer(slot)))
    }

    fn get_item_stack_in_slot<T: FromJson>(&self, slot: i32) -> (request: Request<T>)
        ensures
            request.asks(self.device_id(), "getItemStackInSlot"@, seq![integer_model(slot as int)]),
    {
        Request::invoke(self.id(), "getItemStackInSlot", one_parameter(Json::integer(slot)))
    }
}

/// An interface that allows for interacting with fluid tanks.
pub trait FluidHandler: RPCDevice {
    fn get_fluid_tanks(&self) -> (request: Request<i32>)
        ensures
            request.asks(self.device_id(), "getFluidTanks"@, Seq::<JsonValue>::empty()),
    {
        Request::invoke(self.id(), "getFluidTanks", no_parameters())
    }

    fn get_fluid_tank_capacity(&self, tank: i32) -> (request: Request<i32>)
        ensures
            request.asks(self.device_id(), "getFluidTankCapacity"@, seq![integer_model(tank as int)]),
    {
        Request::invoke(self.id(), "getFluidTankCapacity", one_parameter(Json::integer(tank)))
    }

    fn get_fluid_in_tank<T: FromJson>(&self, tank: i32) -> (request: Request<T>)
        ensures
            request.asks(self.device_id(), "getFluidInTank"@, seq![integer_model(tank as int)]),
    {
        Request::invoke(self.id(), "getFluidInTank", one_parameter(Json::integer(tank)))
    }
}

/// An interface that allows for interacting with redstone signals.
pub trait RedstoneInterface: RPCDevice {
    /// Gets the received redstone signal for the specified side.
    fn get_redstone_input(&self, side: &str) -> (request: Request<i32>)
        ensures
            request.asks(self.device_id(), "getRedstoneInput"@, seq![JsonValue::Text(side@)]),
    {
        Request::invoke(self.id(), "getRedstoneInput", one_parameter(Json::text(side)))
    }

    /// Gets the emitted redstone signal for the specified side.
    fn get_redstone_output(&self, side: &str) -> (request: Request<i32>)
        ensures
            request.asks(self.device_id(), "getRedstoneOutput"@, seq![JsonValue::Text(side@)]),
    {
        Request::invoke(self.id(), "getRedstoneOutput", one_parameter(Json::text(side)))
    }

    /// Sets the emitted redstone signal for the specified side.
    fn set_redstone_output(&self, side: &str, val: i32) -> (request: Request<Option<()>>)
        ensures
            request.asks(self.device_id(), "setRedstoneOutput"@, seq![JsonValue::Text(side@), integer_model(val as int)]),
    {
        Request::invoke(self.id(), "setRedstoneOutput", two_parameters(Json::text(side), Json::integer(val)))
    }
}

/// A device capable of playing sounds.
pub trait SoundInterface: RPCDevice {
    /// Returns a list of available sound effects matching the given name.
    /// The number of results is limited, so overly generic queries will
    /// result in truncated results.
    fn find_sound(&self, name: &str) -> (request: Request<Vec<String>>)
        ensures
            request.asks(self.device_id(), "findSound"@, seq![JsonValue::Text(name@)]),
    {
        Request::invoke(self.id(), "findSound", one_parameter(Json::text(name)))
    }

    /// Plays back the sound effect with the specified name.
    fn play_sound(&self, name: &str) -> (request: Request<Option<()>>)
        ensures
            request.asks(self.device_id(), "playSound"@, seq![JsonValue::Text(name@)]),
    {
        Request::invoke(self.id(), "playSound", one_parameter(Json::text(name)))
    }
}

/// An interface that allows exporting and importing files.
pub trait FileImportExport: RPCDevice {
    fn request_import_file(&self) -> (request: Request<bool>)
        ensures
            request.asks(self.device_id(), "requestImportFile"@, Seq::<JsonValue>::empty()),
    {
        Request::invoke(self.id(), "requestImportFile", no_parameters())
    }

    fn begin_import_file(&self) -> (request: Request<Option<ImportFileInfo>>)
        ensures
            request.asks(self.device_id(), "beginImportFile"@, Seq::<JsonValue>::empty()),
    {
        Request::invoke(self.id(), "beginImportFile", no_parameters())
    }

    fn read_import_file(&self) -> (request: Request<Option<Vec<u8>>>)
        ensures
            request.asks(self.device_id(), "readImportFile"@, Seq::<JsonValue>::empty()),
    {
        Request::invoke(self.id(), "readImportFile", no_parameters())
    }

    fn begin_export_file(&self, name: &str) -> (request: Request<Option<()>>)
        ensures
            request.asks(self.device_id(), "beginExportFile"@, seq![JsonValue::Text(name@)]),
    {
        Request::invoke(self.id(), "beginExportFile", one_parameter(Json::text(name)))
    }

    fn write_export_file(&self, data: &[u8]) -> (request: Request<Option<()>>)
        ensures
            request.asks(self.device_id(), "writeExportFile"@, seq![bytes_model(data@)]),
    {
        Request::invoke(self.id(), "writeExportFile", one_parameter(Json::bytes(data)))
    }

    fn finish_export_file(&self) -> (request: Request<Option<()>>)
        ensures
            request.asks(self.device_id(), "finishExportFile"@, Seq::<JsonValue>::empty()),
    {
        Request::invoke(self.id(), "finishExportFile", no_parameters())
    }

    fn reset(&self) -> (request: Request<Option<()>>)
        ensures
            request.asks(self.device_id(), "reset"@, Seq::<JsonValue>::empty()),
    {
        Request::invoke(self.id(), "reset", no_parameters())
    }
}

/// An interface that allows for the manipulation of blocks in the world.
/// 
/// The side parameter in the following methods represents a direction from
/// the perspective of the robot. Valid values are: "front", "up" and "down".
pub trait BlockOperationsInterface: RPCDevice {
    /// Tries to break a block in the specified direction. Collected blocks
    /// will be inserted starting at the currently selected inventory slot. If
    /// the selected slot is full, the next slot will be used, and so on. If
    /// the inventory has no space for the dropped block, it will drop into
    /// the world. Returns whether the operation was successful.
    fn excavate(&self, side: &str) -> (request: Request<bool>)
        ensures
            request.asks(self.device_id(), "excavate"@, seq![JsonValue::Text(side@)]),
    {
        Request::invoke(self.id(), "excavate", one_parameter(Json::text(side)))
    }

    /// Tries to place a block in the specified direction. Blocks will be
    /// placed from the currently selected inventory slot. If the slot is
    /// empty, no block will be placed. Returns whether the operation was
    /// successful.
    fn place(&self, side: &str) -> (request: Request<bool>)
        ensures
            request.asks(self.device_id(), "place"@, seq![JsonValue::Text(side@)]),
    {
        Request::invoke(self.id(), "place", one_parameter(Json::text(side)))
    }

    /// Returns the remaining durability of the module's excavation tool.
    /// Once the durability has reached zero, no further excavation
    /// operations can be performed until it is repaired.
    fn durability(&self) -> (request: Request<i32>)
        ensures
            request.asks(self.device_id(), "durability"@, Seq::<JsonValue>::empty()),
    {
        Request::invoke(self.id(), "durability", no_parameters())
    }

    /// Attempts to repair the module's excavation tool using materials in
    /// the currently selected inventory slot. This method will consume one
    /// item at a time. Returns whether some material could be used to repair
    /// the tool.
    fn repair(&self) -> (request: Request<bool>)
        ensures
            request.asks(self.device_id(), "repair"@, Seq::<JsonValue>::empty()),
    {
        Request::invoke(self.id(), "repair", no_parameters())
    }
}

/// An interface that allows for the manipulation of inventories in the world.
/// 
/// The side parameter in the following methods represents a direction from
/// the perspective of the robot. Valid values are: "front", "up" and "down".
pub trait InventoryOperationsInterface: RPCDevice {
    /// Tries to move the specified number of items from one robot inventory
    /// slot to another.
    fn move_stack(&self, from: i32, into: i32, count: i32) -> (request: Request<Option<()>>)
        ensures
            request.asks(self.device_id(), "move"@, seq![integer_model(from as int), integer_model(into as int), integer_model(count as int)]),
    {
        Request::invoke(self.id(), "move", three_parameters(Json::integer(from), Json::integer(into), Json::integer(count)))
    }

    /// Tries to drop items from the specified slot in the specified
    /// direction. It will drop items either into an inventory, or the world
    /// if no inventory is present. Returns the number of items dropped.
    fn drop(&self, count: i32, side: &str) -> (request: Request<i32>)
        ensures
            request.asks(self.device_id(), "drop"@, seq![integer_model(count as int), JsonValue::Text(side@)]),
    {
        Request::invoke(self.id(), "drop", two_parameters(Json::integer(count), Json::text(side)))
    }

    /// Tries to drop items from the specified slot into the specified slot
    /// of an inventory in the specified direction. It will only drop items
    /// into an inventory. Returns the number of items dropped.
    fn drop_into(&self, into: i32, count: i32, side: &str) -> (request: Request<i32>)
        ensures
            request.asks(self.device_id(), "dropInto"@, seq![integer_model(into as int), integer_model(count as int), JsonValue::Text(side@)]),
    {
        Request::invoke(self.id(), "dropInto", three_parameters(Json::integer(into), Json::integer(count), Json::text(side)))
    }

    /// Tries to take the specified number of items from the specified
    /// direction. It will take items from either an inventory, or the world
    /// if no inventory is present. Returns the number of items taken.
    fn take(&self, count: i32, side: &str) -> (request: Request<i32>)
        ensures
            request.asks(self.device_id(), "take"@, seq![integer_model(count as int), JsonValue::Text(side@)]),
    {
        Request::invoke(self.id(), "take", two_parameters(Json::integer(count), Json::text(side)))
    }

    /// Tries to take the specified number of items from the specified slot
    /// from an inventory in the specified direction. It will only take items
    /// from an inventory. Returns the number of items taken.
    fn take_from(&self, from: i32, count: i32, side: &str) -> (request: Request<i32>)
        ensures
            request.asks(self.device_id(), "take_from"@, seq![integer_model(from as int), integer_model(count as int), JsonValue::Text(side@)]),
    {
        Request::invoke(self.id(), "take_from", three_parameters(Json::integer(from), Json::integer(count), Json::text(side)))
    }
}

/// A robot.
pub trait RobotInterface: RPCDevice {
    /// Returns the current amount of energy stored in the robot's internal
    /// energy storage.
    fn get_energy_stored(&self) -> (request: Request<i32>)
        ensures
            request.asks(self.device_id(), "getEnergyStored"@, Seq::<JsonValue>::empty()),
    {
        Request::invoke(self.id(), "getEnergyStored", no_parameters())
    }

    /// Returns the maximum amount of energy that can be stored in the
    /// robot's internal energy storage.
    fn get_max_energy_stored(&self) -> (request: Request<i32>)
        ensures
            request.asks(self.device_id(), "getMaxEnergyStored"@, Seq::<JsonValue>::empty()),
    {
        Request::invoke(self.id(), "getMaxEnergyStored", no_parameters())
    }

    /// Returns the currently selected robot inventory slot. This is used by
    /// many modules as an implicit input.
    fn get_selected_slot(&self) -> (request: Request<i32>)
        ensures
            request.asks(self.device_id(), "getSelectedSlot"@, Seq::<JsonValue>::empty()),
    {
        Request::invoke(self.id(), "getSelectedSlot", no_parameters())
    }

    /// Sets the currently selected robot inventory slot.
    fn set_selected_slot(&self, slot: i32) -> (request: Request<Option<()>>)
        ensures
            request.asks(self.device_id(), "setSelectedSlot"@, seq![integer_model(slot as int)]),
    {
        Request::invoke(self.id(), "setSelectedSlot", one_parameter(Json::integer(slot)))
    }

    /// Gets a description of the item in the specified slot.
    fn get_stack_in_slot<T: FromJson>(&self, slot: i32) -> (request: Request<T>)
        ensures
            request.asks(self.device_id(), "getStackInSlot"@, seq![integer_model(slot as int)]),
    {
        Request::invoke(self.id(), "getStackInSlot", one_parameter(Json::integer(slot)))
    }

    /// Returns the opaque id of the last enqueued action. Ask for it after
    /// a move or a turn was enqueued to obtain the id of that action.
    fn get_last_action_id(&self) -> (request: Request<i32>)
        ensures
            request.asks(self.device_id(), "getLastActionId"@, Seq::<JsonValue>::empty()),
    {
        Request::invoke(self.id(), "getLastActionId", no_parameters())
    }

    /// Returns the number of actions currently waiting in the action queue
    /// to be processed.
    fn get_queued_action_count(&self) -> (request: Request<i32>)
        ensures
            request.asks(self.device_id(), "getQueuedActionCount"@, Seq::<JsonValue>::empty()),
    {
        Request::invoke(self.id(), "getQueuedActionCount", no_parameters())
    }

    /// Returns the result of the action with the specified id. Only a
    /// limited number of past action results are available.
    fn get_action_result(&self, id: i32) -> (request: Request<RobotActionResult>)
        ensures
            request.asks(self.device_id(), "getActionResult"@, seq![integer_model(id as int)]),
    {
        Request::invoke(self.id(), "getActionResult", one_parameter(Json::integer(id)))
    }

    /// Tries to enqueue a movement action in the specified direction.
    /// Returns whether the action was enqueued successfully.
    fn move_async(&self, direction: MoveDirection) -> (request: Request<bool>)
        ensures
            request.asks(self.device_id(), "move"@, seq![JsonValue::Text(direction.name())]),
    {
        Request::invoke(self.id(), "move", one_parameter(direction.to_json()))
    }

    /// Tries to enqueue a turn action in the specified direction. Returns
    /// whether the action was enqueued successfully.
    fn turn_async(&self, direction: RotationDirection) -> (request: Request<bool>)
        ensures
            request.asks(self.device_id(), "turn"@, seq![JsonValue::Text(direction.name())]),
    {
        Request::invoke(self.id(), "turn", one_parameter(direction.to_json()))
    }
}

/// A device capable of interacting with redstone.
#[derive(Debug, Clone, PartialEq, Eq)]
pub struct RedstoneDevice(pub String);

impl RPCDevice for RedstoneDevice {
    open spec fn device_id(&self) -> Seq<char> {
        self.0@
    }

    fn id(&self) -> (id: &str) {
        self.0.as_str()
    }

    fn from_id(id: String) -> (device: Self) {
        RedstoneDevice(id)
    }
}

impl IdentifiedDevice for RedstoneDevice {
    open spec fn kind() -> Seq<char> {
        "redstone"@
    }

    fn identity() -> (kind: &'static str) {
        "redstone"
    }
}

impl RedstoneInterface for RedstoneDevice {
}

/// A device capable of playing sounds.
#[derive(Debug, Clone, PartialEq, Eq)]
pub struct SoundCard(pub String);

impl RPCDevice for SoundCard {
    open spec fn device_id(&self) -> Seq<char> {
        self.0@
    }

    fn id(&self) -> (id: &str) {
        self.0.as_str()
    }

    fn from_id(id: String) -> (device: Self) {
        SoundCard(id)
    }
}

impl IdentifiedDevice for SoundCard {
    open spec fn kind() -> Seq<char> {
        "sound"@
    }

    fn identity() -> (kind: &'static str) {
        "sound"
    }
}

impl SoundInterface for SoundCard {
}

/// A device capable of importing and exporting files.
#[derive(Debug, Clone, PartialEq, Eq)]
pub struct FileImportExportCard(pub String);

impl RPCDevice for FileImportExportCard {
    open spec fn device_id(&self) -> Seq<char> {
        self.0@
    }

    fn id(&self) -> (id: &str) {
        self.0.as_str()
    }

    fn from_id(id: String) -> (device: Self) {
        FileImportExportCard(id)
    }
}

impl IdentifiedDevice for FileImportExportCard {
    open spec fn kind() -> Seq<char> {
        "file_import_export"@
    }

    fn identity() -> (kind: &'static str) {
        "file_import_export"
    }
}

impl FileImportExport for FileImportExportCard {
}

/// A robot.
#[derive(Debug, Clone, PartialEq, Eq)]
pub struct Robot(pub String);

impl RPCDevice for Robot {
    open spec fn device_id(&self) -> Seq<char> {
        self.0@
    }

    fn id(&self) -> (id: &str) {
        self.0.as_str()
    }

    fn from_id(id: String) -> (device: Self) {
        Robot(id)
    }
}

impl IdentifiedDevice for Robot {
    open spec fn kind() -> Seq<char> {
        "robot"@
    }

    fn identity() -> (kind: &'static str) {
        "robot"
    }
}

impl RobotInterface for Robot {
}

/// A device capable of manipulating blocks in the world.
#[derive(Debug, Clone, PartialEq, Eq)]
pub struct BlockOperationsModule(pub String);

impl RPCDevice for BlockOperationsModule {
    open spec fn device_id(&self) -> Seq<char> {
        self.0@
    }

    fn id(&self) -> (id: &str) {
        self.0.as_str()
    }

    fn from_id(id: String) -> (device: Self) {
        BlockOperationsModule(id)
    }
}

impl IdentifiedDevice for BlockOperationsModule {
    open spec fn kind() -> Seq<char> {
        "block_operations"@
    }

    fn identity() -> (kind: &'static str) {
        "block_operations"
    }
}

impl BlockOperationsInterface for BlockOperationsModule {
}

/// A device capable of manipulating inventories in the world.
#[derive(Debug, Clone, PartialEq, Eq)]
pub struct InventoryOperationsModule(pub String);

impl RPCDevice for InventoryOperationsModule {
    open spec fn device_id(&self) -> Seq<char> {
        self.0@
    }

    fn id(&self) -> (id: &str) {
        self.0.as_str()
    }

    fn from_id(id: String) -> (device: Self) {
        InventoryOperationsModule(id)
    }
}

impl IdentifiedDevice for InventoryOperationsModule {
    open spec fn kind() -> Seq<char> {
        "inventory_operations"@
    }

    fn identity() -> (kind: &'static str) {
        "inventory_operations"
    }
}

impl InventoryOperationsInterface for InventoryOperationsModule {
}

} // verus!
