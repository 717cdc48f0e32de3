# kovel

A desktop helper that forwards a local port to a port of a Kubernetes service
or pod by running `kubectl port-forward`, with a GTK window to pick the
namespace, the resource and the ports, and to stop running forwards.

- `src/` is the verified library (Verus): reading the namespace file
  (`json`), the port lists of services and pods (`resources`), the state
  behind the window and the list of running forwards (`model`), what the
  "Port forward" button and the drop-downs do (`forward`), decimal rendering
  (`decimal`), and the properties that tie these together (`laws`).
- `app/` is the GTK window, the Kubernetes client and the `kubectl`
  processes; it hands the library plain values and performs what the library
  decides.
- `tests/` runs the library on concrete values.
