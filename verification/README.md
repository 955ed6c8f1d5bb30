# BTC Price Alert

Terminal program that shows the live Bitcoin price from Binance and plays a sound when the price
reaches your alert threshold.

- **A** sets an alert: enter the price, Tab toggles Above/Below, Enter confirms, Esc cancels
- **C** clears the alert
- **Q** quits

## Layout

- `src/` is the library: every decision of the program, written in Verus. It compares prices, arms
  and debounces the alert, takes in keys, follows the connection, lays out the screen, and composes
  the sounds. Each function states in its contract what it returns, and the functions named `law_*`
  state what holds of the program as a whole: that alarms of one alert keep their distance, that the
  record of a saved alert loads as that alert, that a save which fails leaves the old file whole,
  that the screen is up to date after every round.
  Two limits are part of these: the file cannot hold an infinite threshold, and in a terminal of
  fewer than 14 rows, unless it has 10 or 11, a partial redraw can wipe a row that it does not draw.
- `app/` is the program around it: the terminal, the network, the file, the audio device, and
  everything that is floating point.
- `tests/` runs the library on concrete values.

Prices are kept as the 64 bits of their floating point numbers. The contracts speak of the numbers.

## Requirements

On Linux the audio needs `libasound2-dev` and `pkg-config`.
