# weather_station

Firmware of a weather station monitor for the Raspberry Pi Pico W: it reads
the frames that a serial weather station sends, keeps the latest readings,
and serves them over a Wi-Fi access point as JSON and as web pages.

`src/` is the verified library (Verus):

- `station::raw` — the 37-byte frame and its tagged fields;
- `station::data` — decoding a frame into readings in the station's units;
- `station::controller` — the frame reader, a state machine that is told
  what each serial read gave and says what to do next;
- `network` — choosing the access point's channel from a scan;
- `routes` — routing HTTP requests and the head of each response;
- `color` — ANSI colours for log lines;
- `random` — random integers made of the ring oscillator's random bits.

`app/` is the firmware around it: Embassy tasks, the serial port, the Wi-Fi
chip, the DHCP and HTTP servers, logging over USB, and the conversion of
readings into physical quantities, which are floating point.
