//! Block device information reported by a node.

use vstd::prelude::*;

verus! {

/// Filesystem information in case where a filesystem is present.
#[derive(Clone, Debug, Default, PartialEq)]
pub struct BlockDeviceFilesystem {
    /// filesystem type: ext3, ntfs, ...
    pub fstype: String,
    /// volume label
    pub label: String,
    /// path where filesystem is currently mounted
    pub mountpoint: String,
    /// UUID identifying the volume (filesystem)
    pub uuid: String,
}

/// Partition information in case where device represents a partition.
#[derive(Clone, Debug, Default, PartialEq)]
pub struct BlockDevicePartition {
    /// partition name
    pub name: String,
    /// partition number
    pub number: i32,
    /// devname of parent device to which this partition belongs
    pub parent: String,
    /// partition scheme: gpt, dos, ...
    pub scheme: String,
    /// partition type identifier
    pub typeid: String,
    /// UUID identifying partition
    pub uuid: String,
}

/// Block device information
#[derive(Clone, Debug, Default, PartialEq)]
pub struct BlockDevice {
    /// identifies if device is available for use (ie. is not "currently" in  use)
    pub available: bool,
    /// list of udev generated symlinks by which device may be identified
    pub devlinks: Vec<String>,
    /// major device number
    pub devmajor: i32,
    /// minor device number
    pub devminor: i32,
    /// entry in /dev associated with device
    pub devname: String,
    /// official device path
    pub devpath: String,
    /// currently "disk" or "partition"
    pub devtype: String,
    pub filesystem: BlockDeviceFilesystem,
    /// device model - useful for identifying devices
    pub model: String,
    pub partition: BlockDevicePartition,
    /// size of device in (512 byte) blocks
    pub size: i64,
}

impl BlockDevice {
    /// BlockDevice using only the required fields
    pub fn new(
        available: bool,
        devlinks: Vec<String>,
        devmajor: i32,
        devminor: i32,
        devname: String,
        devpath: String,
        devtype: String,
        filesystem: BlockDeviceFilesystem,
        model: String,
        partition: BlockDevicePartition,
        size: i64,
    ) -> (r: BlockDevice)
        ensures
            r == (BlockDevice {
                available,
                devlinks,
                devmajor,
                devminor,
                devname,
                devpath,
                devtype,
                filesystem,
                model,
                partition,
                size,
            }),
    {
        BlockDevice {
            available,
            devlinks,
            devmajor,
            devminor,
            devname,
            devpath,
            devtype,
            filesystem,
            model,
            partition,
            size,
        }
    }

    /// BlockDevice using all fields
    pub fn new_all(
        available: bool,
        devlinks: Vec<String>,
        devmajor: i32,
        devminor: i32,
        devname: String,
        devpath: String,
        devtype: String,
        filesystem: BlockDeviceFilesystem,
        model: String,
        partition: BlockDevicePartition,
        size: i64,
    ) -> (r: BlockDevice)
        ensures
            r == (BlockDevice {
                available,
                devlinks,
                devmajor,
                devminor,
                devname,
                devpath,
                devtype,
                filesystem,
                model,
                partition,
                size,
            }),
    {
        BlockDevice {
            available,
            devlinks,
            devmajor,
            devminor,
            devname,
            devpath,
            devtype,
            filesystem,
            model,
            partition,
            size,
        }
    }
}

} // verus!
