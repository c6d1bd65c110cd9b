# ble_peripheral

Types for a Bluetooth Low Energy peripheral: advertisement payloads, GATT service
descriptions, ATT and HCI error codes, and the traits that a platform's BLE stack
implements.

The library under `src/` is verified with Verus. Its centre is the advertisement
builder (`src/advertisement.rs`): every operation states, over a model of the builder
(`BuilderView`), exactly which bytes it writes or which error it returns, and every
payload it builds is less than 31 bytes, reads as a sequence of length-type-value
records (`parse_ad_records`) and holds a flags record. The payload buffer is a `heapless::Vec`, reached through
the trusted wrappers of `src/ad_buffer.rs`.

`app/` holds what Verus does not take: the `Peripheral` and `GattServerCallback`
traits with `GattServerEvent`, and the `enumset` forms of the characteristic property
and permission sets with conversions to the library's sets.
